use instant_glicko_2::error::RatingError;
use instant_glicko_2::game::Game;
use instant_glicko_2::period::ElapsedPeriods;
use instant_glicko_2::timed::{rate_game, rate_games, TimedGame, TimedGames, TimedOpponentGame, TimedRating};

/// Adds one per elapsed whole period.
fn toy_decay(rating: &i64, elapsed: ElapsedPeriods) -> i64 {
    *rating + (elapsed.elapsed / elapsed.period) as i64
}

/// Adds the opponents' ratings times the scores, and the elapsed nanoseconds times a million.
fn toy_update(rating: &i64, games: &Vec<Game<i64, i64>>, elapsed: ElapsedPeriods) -> i64 {
    let sum: i64 = games.iter().map(|g| g.opponent * g.score).sum();
    *rating + sum + elapsed.elapsed as i64 * 1_000_000
}

#[test]
fn timed_game_resolves_opponent_at_its_time() {
    let opponent = TimedRating::new(0, 100i64);
    let game = TimedGame::new(30, opponent, 1i64);
    assert_eq!(game.time(), 30);
    assert_eq!(game.score(), 1);
    assert_eq!(game.raw_game().opponent, 100);
    let at_game = game.to_game(10, &toy_decay).unwrap();
    assert_eq!(at_game.opponent, 103);
    assert_eq!(at_game.score, 1);
    assert_eq!(game.game_at(55, 10, &toy_decay).unwrap().opponent, 105);
}

#[test]
fn timed_game_refuses_opponent_updated_later() {
    let opponent = TimedRating::new(50, 100i64);
    let game = TimedGame::new(30, opponent, 1i64);
    assert_eq!(game.to_game(10, &toy_decay).err(), Some(RatingError::TemporalInversion));
}

#[test]
fn timed_games_share_their_time() {
    let a = TimedOpponentGame::new(TimedRating::new(0, 10i64), 1i64);
    let b = TimedOpponentGame::new(TimedRating::new(5, 20i64), 0i64);
    let games = TimedGames::new(40, vec![a, b]);
    assert_eq!(games.time(), 40);
    assert_eq!(games.games().len(), 2);
    let timed = games.timed_games();
    assert_eq!(timed.len(), 2);
    assert_eq!(timed[1].time(), 40);
    assert_eq!(timed[1].opponent().raw_rating(), 20);
    let single = TimedGames::single(TimedGame::new(7, TimedRating::new(0, 3i64), 1i64));
    assert_eq!(single.time(), 7);
    assert_eq!(single.games()[0].opponent().raw_rating(), 3);
}

#[test]
fn rate_games_projects_everyone_to_the_time_of_the_games() {
    let player = TimedRating::new(0, 1000i64);
    let a = TimedOpponentGame::new(TimedRating::new(0, 10i64), 1i64);
    let b = TimedOpponentGame::new(TimedRating::new(20, 20i64), 2i64);
    let games = TimedGames::new(40, vec![a, b]);
    let rated = rate_games(player, &games, 10, &toy_decay, &toy_update).unwrap();
    assert_eq!(rated.last_updated(), 40);
    // player 1000 + 4 periods; opponents 10 + 4 and 20 + 2; no further elapsed time
    assert_eq!(rated.raw_rating(), 1004 + 14 * 1 + 22 * 2);
}

#[test]
fn rate_games_without_games_changes_nothing() {
    let player = TimedRating::new(70, 1000i64);
    let games: TimedGames<i64, i64> = TimedGames::new(40, vec![]);
    let rated = rate_games(player, &games, 10, &toy_decay, &toy_update).unwrap();
    assert_eq!(rated.last_updated(), 70);
    assert_eq!(rated.raw_rating(), 1000);
}

#[test]
fn rate_games_refuses_inverted_time() {
    let player = TimedRating::new(50, 1000i64);
    let a = TimedOpponentGame::new(TimedRating::new(0, 10i64), 1i64);
    let games = TimedGames::new(40, vec![a]);
    assert_eq!(
        rate_games(player, &games, 10, &toy_decay, &toy_update).err(),
        Some(RatingError::TemporalInversion)
    );
    let player = TimedRating::new(0, 1000i64);
    let late = TimedOpponentGame::new(TimedRating::new(41, 10i64), 1i64);
    let games = TimedGames::new(40, vec![a, late]);
    assert_eq!(
        rate_games(player, &games, 10, &toy_decay, &toy_update).err(),
        Some(RatingError::TemporalInversion)
    );
    assert_eq!(
        rate_games(player, &TimedGames::new(40, vec![a]), 0, &toy_decay, &toy_update).err(),
        Some(RatingError::ZeroPeriodDuration)
    );
}

#[test]
fn rate_game_rates_a_single_game() {
    let player = TimedRating::new(0, 1000i64);
    let game = TimedGame::new(20, TimedRating::new(10, 50i64), 1i64);
    let rated = rate_game(player, game, 10, &toy_decay, &toy_update).unwrap();
    assert_eq!(rated.last_updated(), 20);
    assert_eq!(rated.raw_rating(), 1002 + 51);
}
