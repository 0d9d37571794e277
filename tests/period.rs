use instant_glicko_2::error::RatingError;
use instant_glicko_2::game::Game;
use instant_glicko_2::period::{elapsed_between, ElapsedPeriods};
use instant_glicko_2::timed::TimedRating;

#[test]
fn elapsed_between_measures_forward_time() {
    assert_eq!(
        elapsed_between(10, 35, 10),
        Ok(ElapsedPeriods { elapsed: 25, period: 10 })
    );
    assert_eq!(elapsed_between(10, 10, 10), Ok(ElapsedPeriods { elapsed: 0, period: 10 }));
}

#[test]
fn elapsed_between_refuses_backwards_time() {
    assert_eq!(elapsed_between(10, 9, 10), Err(RatingError::TemporalInversion));
}

#[test]
fn elapsed_between_refuses_zero_period() {
    assert_eq!(elapsed_between(10, 20, 0), Err(RatingError::ZeroPeriodDuration));
    assert_eq!(elapsed_between(10, 5, 0), Err(RatingError::ZeroPeriodDuration));
}

#[test]
fn whole_periods_are_floored() {
    let e = ElapsedPeriods { elapsed: 25, period: 10 };
    assert_eq!(e.whole(), 2);
    assert_eq!(e.fraction(), ElapsedPeriods { elapsed: 5, period: 10 });
    let exact = ElapsedPeriods { elapsed: 30, period: 10 };
    assert_eq!(exact.whole(), 3);
    assert_eq!(exact.fraction(), ElapsedPeriods { elapsed: 0, period: 10 });
    assert_eq!(ElapsedPeriods::one(7), ElapsedPeriods { elapsed: 7, period: 7 });
    assert_eq!(ElapsedPeriods::one(7).whole(), 1);
}

#[test]
fn whole_periods_of_the_largest_span() {
    let e = ElapsedPeriods { elapsed: u64::MAX, period: 1 };
    assert_eq!(e.whole(), u64::MAX);
    assert_eq!(e.fraction().elapsed, 0);
}

/// Grows a deviation the way rating decay does, on integers: adds the elapsed nanoseconds
/// divided by the period.
fn toy_decay(deviation: &u64, elapsed: ElapsedPeriods) -> u64 {
    *deviation + elapsed.elapsed / elapsed.period
}

#[test]
fn timed_rating_projects_forward() {
    let timed = TimedRating::new(100, 7u64);
    assert_eq!(timed.last_updated(), 100);
    assert_eq!(timed.raw_rating(), 7);
    assert_eq!(timed.rating_at(100, 10, &toy_decay), Ok(7));
    assert_eq!(timed.rating_at(135, 10, &toy_decay), Ok(10));
    assert_eq!(
        timed.elapsed_periods_at(135, 10),
        Ok(ElapsedPeriods { elapsed: 35, period: 10 })
    );
    // the snapshot itself is unchanged
    assert_eq!(timed.raw_rating(), 7);
}

#[test]
fn timed_rating_refuses_earlier_time() {
    let timed = TimedRating::new(100, 7u64);
    assert_eq!(timed.rating_at(99, 10, &toy_decay), Err(RatingError::TemporalInversion));
    assert_eq!(timed.elapsed_periods_at(99, 10), Err(RatingError::TemporalInversion));
    assert_eq!(timed.rating_at(200, 0, &toy_decay), Err(RatingError::ZeroPeriodDuration));
}

#[test]
fn game_keeps_opponent_and_score() {
    let game = Game::new(1500i64, 0.5f64);
    assert_eq!(game.opponent(), 1500);
    assert_eq!(game.score(), 0.5);
}
