use instant_glicko_2::engine::{MatchResult, RatingEngine};
use instant_glicko_2::error::RatingError;
use instant_glicko_2::game::Game;
use instant_glicko_2::period::ElapsedPeriods;

const SECOND: u64 = 1_000_000_000;

/// A stand-in for the rating update: adds the scores of the games, times 1000, and the elapsed
/// nanoseconds, so that every input it was given shows in the result.
fn toy_update(rating: &i64, games: &Vec<Game<i64, i64>>, elapsed: ElapsedPeriods) -> i64 {
    let scores: i64 = games.iter().map(|g| g.score * 1000).sum();
    *rating + scores + elapsed.elapsed as i64
}

#[test]
fn zero_period_duration_is_refused() {
    let r = RatingEngine::<i64, i64>::start_new_at(0, 0);
    assert_eq!(r.err(), Some(RatingError::ZeroPeriodDuration));
}

#[test]
fn register_player_hands_out_consecutive_handles() {
    let mut engine = RatingEngine::<i64, i64>::start_new_at(0, SECOND).unwrap();
    let (a, closed_a) = engine.register_player_at(10, 0, &toy_update).unwrap();
    let (b, closed_b) = engine.register_player_at(20, 0, &toy_update).unwrap();
    assert_eq!(closed_a, 0);
    assert_eq!(closed_b, 0);
    assert_ne!(a, b);
    assert_eq!(engine.player_handles(), vec![a, b]);
    assert_eq!(engine.last_rating_period_rating(a), Ok(10));
    assert_eq!(engine.last_rating_period_rating(b), Ok(20));
}

#[test]
fn results_are_recorded_for_both_players() {
    let mut engine = RatingEngine::<i64, i64>::start_new_at(0, SECOND).unwrap();
    let (a, _) = engine.register_player_at(10, 0, &toy_update).unwrap();
    let (b, _) = engine.register_player_at(20, 0, &toy_update).unwrap();
    assert_eq!(engine.register_result_at(a, b, 1, 0, 5, &toy_update), Ok(0));
    // a: 10 + 1 * 1000 + 500 elapsed nanoseconds
    assert_eq!(engine.player_rating_at(a, 500, &toy_update), Ok((1510, 0)));
    assert_eq!(engine.player_rating_at(b, 500, &toy_update), Ok((520, 0)));
    // reading does not change the stored rating
    assert_eq!(engine.last_rating_period_rating(a), Ok(10));
}

#[test]
fn periods_close_one_at_a_time() {
    let mut engine = RatingEngine::<i64, i64>::start_new_at(100, SECOND).unwrap();
    let (a, _) = engine.register_player_at(10, 100, &toy_update).unwrap();
    let (b, _) = engine.register_player_at(20, 100, &toy_update).unwrap();
    engine.register_result_at(a, b, 1, 0, 100, &toy_update).unwrap();
    // 2.5 periods later: the first closure folds the game in, the second only decays.
    let (fraction, closed) =
        engine.maybe_close_rating_periods_at(100 + 5 * SECOND / 2, &toy_update).unwrap();
    assert_eq!(closed, 2);
    assert_eq!(fraction, ElapsedPeriods { elapsed: SECOND / 2, period: SECOND });
    assert_eq!(engine.last_rating_period_start(), 100 + 2 * SECOND);
    assert_eq!(
        engine.last_rating_period_rating(a),
        Ok(10 + 1000 + 2 * SECOND as i64)
    );
    assert_eq!(engine.last_rating_period_rating(b), Ok(20 + 2 * SECOND as i64));
    // closing again at the same instant is a no-op
    let (_, closed) =
        engine.maybe_close_rating_periods_at(100 + 5 * SECOND / 2, &toy_update).unwrap();
    assert_eq!(closed, 0);
}

#[test]
fn period_boundary_is_floored() {
    let mut engine = RatingEngine::<i64, i64>::start_new_at(0, SECOND).unwrap();
    let (a, _) = engine.register_player_at(0, 0, &toy_update).unwrap();
    assert_eq!(engine.player_rating_at(a, SECOND - 1, &toy_update).unwrap().1, 0);
    assert_eq!(engine.player_rating_at(a, SECOND, &toy_update).unwrap().1, 1);
    assert_eq!(engine.player_rating_at(a, 2 * SECOND - 1, &toy_update).unwrap().1, 0);
}

#[test]
fn time_before_period_start_is_refused() {
    let mut engine = RatingEngine::<i64, i64>::start_new_at(SECOND, SECOND).unwrap();
    let (a, _) = engine.register_player_at(0, SECOND, &toy_update).unwrap();
    assert_eq!(
        engine.register_player_at(0, SECOND - 1, &toy_update),
        Err(RatingError::TemporalInversion)
    );
    assert_eq!(
        engine.register_result_at(a, a, 1, 0, 0, &toy_update),
        Err(RatingError::TemporalInversion)
    );
    assert_eq!(
        engine.player_rating_at(a, 0, &toy_update),
        Err(RatingError::TemporalInversion)
    );
    assert_eq!(engine.elapsed_periods_at(0), Err(RatingError::TemporalInversion));
    assert_eq!(engine.player_handles().len(), 1);
}

#[test]
fn unknown_handle_is_refused() {
    let mut other = RatingEngine::<i64, i64>::start_new_at(0, SECOND).unwrap();
    let mut engine = RatingEngine::<i64, i64>::start_new_at(0, SECOND).unwrap();
    let (a, _) = engine.register_player_at(0, 0, &toy_update).unwrap();
    let (_, _) = other.register_player_at(0, 0, &toy_update).unwrap();
    let (stranger, _) = other.register_player_at(0, 0, &toy_update).unwrap();
    assert_eq!(
        engine.register_result_at(a, stranger, 1, 0, 0, &toy_update),
        Err(RatingError::UnknownPlayer)
    );
    assert_eq!(
        engine.player_rating_at(stranger, 0, &toy_update),
        Err(RatingError::UnknownPlayer)
    );
    assert_eq!(engine.last_rating_period_rating(stranger), Err(RatingError::UnknownPlayer));
}

#[test]
fn match_result_inverts() {
    assert_eq!(MatchResult::Win.invert(), MatchResult::Loss);
    assert_eq!(MatchResult::Draw.invert(), MatchResult::Draw);
    assert_eq!(MatchResult::Loss.invert(), MatchResult::Win);
}
