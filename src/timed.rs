//! Ratings and games that carry the time they refer to.
use vstd::prelude::*;

use crate::error::RatingError;
use crate::game::Game;
use crate::period::{elapsed_between, periods_between, ElapsedPeriods, Timestamp};
use crate::update::{accepts_all, decay_accepts_all, updates_to};

verus! {

/// A rating together with the instant it became valid.
///
/// The deviation of a rating grows while no games are played; keeping the instant lets it be
/// projected to any later time without changing the stored snapshot.
#[derive(Clone, Copy, Debug)]
pub struct TimedRating<R> {
    last_updated: Timestamp,
    rating: R,
}

impl<R: Copy> TimedRating<R> {
    /// The instant the rating became valid.
    pub closed spec fn spec_last_updated(&self) -> Timestamp {
        self.last_updated
    }

    /// The rating as it was at [`Self::last_updated`].
    pub closed spec fn spec_raw_rating(&self) -> R {
        self.rating
    }

    /// A rating that became valid at `last_updated`.
    pub fn new(last_updated: Timestamp, rating: R) -> (r: Self)
        ensures
            r.spec_last_updated() == last_updated,
            r.spec_raw_rating() == rating,
    {
        TimedRating { last_updated, rating }
    }

    /// The instant the rating became valid.
    #[verifier::when_used_as_spec(spec_last_updated)]
    pub fn last_updated(&self) -> (r: Timestamp)
        ensures
            r == self.spec_last_updated(),
    {
        self.last_updated
    }

    /// The rating as it was when it was last updated.
    #[verifier::when_used_as_spec(spec_raw_rating)]
    pub fn raw_rating(&self) -> (r: R)
        ensures
            r == self.spec_raw_rating(),
    {
        self.rating
    }

    /// The rating periods of `period` nanoseconds elapsed from the last update to `time`.
    ///
    /// Fails with [`RatingError::TemporalInversion`] if `time` lies before the last update,
    /// and with [`RatingError::ZeroPeriodDuration`] if `period` is zero.
    pub fn elapsed_periods_at(&self, time: Timestamp, period: u64) -> (r: Result<
        ElapsedPeriods,
        RatingError,
    >)
        ensures
            r == periods_between(self.last_updated(), time, period),
    {
        elapsed_between(self.last_updated, time, period)
    }

    /// The rating at `time`, when no games were played since the last update: `decay` applied
    /// to the stored rating and the rating periods of `period` nanoseconds elapsed since then.
    /// The stored snapshot is not changed.
    ///
    /// Fails with [`RatingError::TemporalInversion`] if `time` lies before the last update,
    /// and with [`RatingError::ZeroPeriodDuration`] if `period` is zero; `decay` is then not
    /// called.
    pub fn rating_at<F: Fn(&R, ElapsedPeriods) -> R>(
        &self,
        time: Timestamp,
        period: u64,
        decay: &F,
    ) -> (r: Result<R, RatingError>)
        requires
            decay_accepts_all(decay),
        ensures
            r is Ok <==> periods_between(self.last_updated(), time, period) is Ok,
            r matches Err(err) ==> periods_between(self.last_updated(), time, period) == Err::<
                ElapsedPeriods,
                RatingError,
            >(err),
            r matches Ok(rating) ==> decay.ensures(
                (&self.raw_rating(), periods_between(self.last_updated(), time, period)->Ok_0),
                rating,
            ),
    {
        match elapsed_between(self.last_updated, time, period) {
            Ok(elapsed) => Ok(decay(&self.rating, elapsed)),
            Err(err) => Err(err),
        }
    }
}

/// A game recorded at a known time, against an opponent whose rating carries its own time.
#[derive(Clone, Copy, Debug)]
pub struct TimedGame<R, S> {
    time: Timestamp,
    opponent: TimedRating<R>,
    score: S,
}

impl<R: Copy, S: Copy> TimedGame<R, S> {
    /// The time the game was recorded.
    pub closed spec fn spec_time(&self) -> Timestamp {
        self.time
    }

    /// The opponent's timed rating.
    pub closed spec fn spec_opponent(&self) -> TimedRating<R> {
        self.opponent
    }

    /// The player's score.
    pub closed spec fn spec_score(&self) -> S {
        self.score
    }

    /// A game at `time` against `opponent`, in which the player scored `score`.
    pub fn new(time: Timestamp, opponent: TimedRating<R>, score: S) -> (r: Self)
        ensures
            r.spec_time() == time,
            r.spec_opponent() == opponent,
            r.spec_score() == score,
    {
        TimedGame { time, opponent, score }
    }

    /// The time the game was recorded.
    #[verifier::when_used_as_spec(spec_time)]
    pub fn time(&self) -> (r: Timestamp)
        ensures
            r == self.spec_time(),
    {
        self.time
    }

    /// The opponent's timed rating.
    #[verifier::when_used_as_spec(spec_opponent)]
    pub fn opponent(&self) -> (r: TimedRating<R>)
        ensures
            r == self.spec_opponent(),
    {
        self.opponent
    }

    /// The player's score.
    #[verifier::when_used_as_spec(spec_score)]
    pub fn score(&self) -> (r: S)
        ensures
            r == self.spec_score(),
    {
        self.score
    }

    /// The game with the timing erased and the opponent rated as at their last update.
    pub fn raw_game(&self) -> (r: Game<R, S>)
        ensures
            r == (Game { opponent: self.opponent().raw_rating(), score: self.score() }),
    {
        Game::new(self.opponent.raw_rating(), self.score)
    }

    /// The game with the timing erased and the opponent rated as at the time of the game.
    ///
    /// Fails as [`Self::game_at`] does at the time of the game.
    pub fn to_game<D: Fn(&R, ElapsedPeriods) -> R>(&self, period: u64, decay: &D) -> (r: Result<
        Game<R, S>,
        RatingError,
    >)
        requires
            decay_accepts_all(decay),
        ensures
            r is Ok <==> periods_between(self.opponent().last_updated(), self.time(), period) is Ok,
            r matches Err(err) ==> periods_between(self.opponent().last_updated(), self.time(), period)
                == Err::<ElapsedPeriods, RatingError>(err),
            r matches Ok(game) ==> game.score == self.score() && decay.ensures(
                (
                    &self.opponent().raw_rating(),
                    periods_between(self.opponent().last_updated(), self.time(), period)->Ok_0,
                ),
                game.opponent,
            ),
    {
        self.game_at(self.time, period, decay)
    }

    /// The game with the timing erased and the opponent rated as at `time`: `decay` applied to
    /// the opponent's rating and the rating periods of `period` nanoseconds elapsed since its
    /// last update.
    ///
    /// Fails with [`RatingError::TemporalInversion`] if `time` lies before the opponent's last
    /// update, and with [`RatingError::ZeroPeriodDuration`] if `period` is zero.
    pub fn game_at<D: Fn(&R, ElapsedPeriods) -> R>(
        &self,
        time: Timestamp,
        period: u64,
        decay: &D,
    ) -> (r: Result<Game<R, S>, RatingError>)
        requires
            decay_accepts_all(decay),
        ensures
            r is Ok <==> periods_between(self.opponent().last_updated(), time, period) is Ok,
            r matches Err(err) ==> periods_between(self.opponent().last_updated(), time, period)
                == Err::<ElapsedPeriods, RatingError>(err),
            r matches Ok(game) ==> game.score == self.score() && decay.ensures(
                (
                    &self.opponent().raw_rating(),
                    periods_between(self.opponent().last_updated(), time, period)->Ok_0,
                ),
                game.opponent,
            ),
    {
        match self.opponent.rating_at(time, period, decay) {
            Ok(opponent) => Ok(Game::new(opponent, self.score)),
            Err(err) => Err(err),
        }
    }
}

/// A game against an opponent whose rating carries its own time; the game itself is not timed.
#[derive(Clone, Copy, Debug)]
pub struct TimedOpponentGame<R, S> {
    opponent: TimedRating<R>,
    score: S,
}

impl<R: Copy, S: Copy> TimedOpponentGame<R, S> {
    /// The opponent's timed rating.
    pub closed spec fn spec_opponent(&self) -> TimedRating<R> {
        self.opponent
    }

    /// The player's score.
    pub closed spec fn spec_score(&self) -> S {
        self.score
    }

    /// A game against `opponent`, in which the player scored `score`.
    pub fn new(opponent: TimedRating<R>, score: S) -> (r: Self)
        ensures
            r.spec_opponent() == opponent,
            r.spec_score() == score,
    {
        TimedOpponentGame { opponent, score }
    }

    /// The opponent's timed rating.
    #[verifier::when_used_as_spec(spec_opponent)]
    pub fn opponent(&self) -> (r: TimedRating<R>)
        ensures
            r == self.spec_opponent(),
    {
        self.opponent
    }

    /// The player's score.
    #[verifier::when_used_as_spec(spec_score)]
    pub fn score(&self) -> (r: S)
        ensures
            r == self.spec_score(),
    {
        self.score
    }

    /// This game, played at `time`.
    pub fn timed_game_at(&self, time: Timestamp) -> (r: TimedGame<R, S>)
        ensures
            r.time() == time,
            r.opponent() == self.opponent(),
            r.score() == self.score(),
    {
        TimedGame::new(time, self.opponent, self.score)
    }

    /// The game with the opponent rated as at `time`; see [`TimedGame::game_at`].
    pub fn game_at<D: Fn(&R, ElapsedPeriods) -> R>(
        &self,
        time: Timestamp,
        period: u64,
        decay: &D,
    ) -> (r: Result<Game<R, S>, RatingError>)
        requires
            decay_accepts_all(decay),
        ensures
            r is Ok <==> periods_between(self.opponent().last_updated(), time, period) is Ok,
            r matches Err(err) ==> periods_between(self.opponent().last_updated(), time, period)
                == Err::<ElapsedPeriods, RatingError>(err),
            r matches Ok(game) ==> game.score == self.score() && decay.ensures(
                (
                    &self.opponent().raw_rating(),
                    periods_between(self.opponent().last_updated(), time, period)->Ok_0,
                ),
                game.opponent,
            ),
    {
        self.timed_game_at(time).to_game(period, decay)
    }
}

/// Games all considered to be played at the same, known time.
#[derive(Clone, Debug)]
pub struct TimedGames<R, S> {
    time: Timestamp,
    games: Vec<TimedOpponentGame<R, S>>,
}

impl<R: Copy, S: Copy> TimedGames<R, S> {
    /// The time the games are considered to be played at.
    pub closed spec fn spec_time(&self) -> Timestamp {
        self.time
    }

    /// The games, without their time.
    pub closed spec fn spec_games(&self) -> Seq<TimedOpponentGame<R, S>> {
        self.games@
    }

    /// `games`, all played at `time`.
    pub fn new(time: Timestamp, games: Vec<TimedOpponentGame<R, S>>) -> (r: Self)
        ensures
            r.spec_time() == time,
            r.spec_games() == games@,
    {
        TimedGames { time, games }
    }

    /// The single game `game`, played at its own time.
    pub fn single(game: TimedGame<R, S>) -> (r: Self)
        ensures
            r.spec_time() == game.time(),
            r.spec_games().len() == 1,
            r.spec_games()[0].opponent() == game.opponent(),
            r.spec_games()[0].score() == game.score(),
    {
        let mut games: Vec<TimedOpponentGame<R, S>> = Vec::new();
        games.push(TimedOpponentGame::new(game.opponent, game.score));
        TimedGames::new(game.time, games)
    }

    /// The time the games are considered to be played at.
    #[verifier::when_used_as_spec(spec_time)]
    pub fn time(&self) -> (r: Timestamp)
        ensures
            r == self.spec_time(),
    {
        self.time
    }

    /// The games, without their time.
    pub fn games(&self) -> (r: &[TimedOpponentGame<R, S>])
        ensures
            r@ == self.spec_games(),
    {
        self.games.as_slice()
    }

    /// The games, each with the common time.
    pub fn timed_games(&self) -> (r: Vec<TimedGame<R, S>>)
        ensures
            r.len() == self.spec_games().len(),
            forall|i: int|
                0 <= i < r.len() ==> (#[trigger] r[i]).time() == self.time() && r[i].opponent()
                    == self.spec_games()[i].opponent() && r[i].score()
                    == self.spec_games()[i].score(),
    {
        let mut timed: Vec<TimedGame<R, S>> = Vec::new();
        let mut i: usize = 0;
        while i < self.games.len()
            invariant
                i <= self.games.len(),
                timed.len() == i,
                forall|k: int|
                    0 <= k < i ==> (#[trigger] timed[k]).time() == self.time() && timed[k].opponent()
                        == self.spec_games()[k].opponent() && timed[k].score()
                        == self.spec_games()[k].score(),
            decreases self.games.len() - i,
        {
            timed.push(self.games[i].timed_game_at(self.time));
            i += 1;
        }
        timed
    }
}

/// `played` are `games` with the timing erased, each opponent rated by `decay` as at `time`.
pub open spec fn resolves_games<R: Copy, S: Copy, D: Fn(&R, ElapsedPeriods) -> R>(
    decay: &D,
    games: Seq<TimedOpponentGame<R, S>>,
    time: Timestamp,
    period: u64,
    played: Seq<Game<R, S>>,
) -> bool {
    &&& played.len() == games.len()
    &&& forall|i: int|
        0 <= i < games.len() ==> (#[trigger] played[i]).score == games[i].score() && decay.ensures(
            (
                &games[i].opponent().raw_rating(),
                ElapsedPeriods {
                    elapsed: (time - games[i].opponent().last_updated()) as u64,
                    period,
                },
            ),
            played[i].opponent,
        )
}

/// Every rating involved in `games` was last updated no later than the games were played.
pub open spec fn opponents_precede<R: Copy, S: Copy>(games: TimedGames<R, S>) -> bool {
    forall|i: int|
        0 <= i < games.spec_games().len() ==> (#[trigger] games.spec_games()[i]).opponent().last_updated()
            <= games.time()
}

/// `rating` is a possible result of rating a player rated `player_rating` with `games`: the
/// player and every opponent projected by `decay` to the time of the games, then `update` with
/// no further elapsed time.
pub open spec fn rates_to<
    R: Copy,
    S: Copy,
    D: Fn(&R, ElapsedPeriods) -> R,
    F: Fn(&R, &Vec<Game<R, S>>, ElapsedPeriods) -> R,
>(
    decay: &D,
    update: &F,
    player_rating: TimedRating<R>,
    games: TimedGames<R, S>,
    period: u64,
    rating: R,
) -> bool {
    exists|now: R, played: Seq<Game<R, S>>|
        {
            &&& decay.ensures(
                (
                    &player_rating.raw_rating(),
                    ElapsedPeriods {
                        elapsed: (games.time() - player_rating.last_updated()) as u64,
                        period,
                    },
                ),
                now,
            )
            &&& resolves_games(decay, games.spec_games(), games.time(), period, played)
            &&& #[trigger] updates_to(update, now, played, ElapsedPeriods { elapsed: 0, period }, rating)
        }
}

/// The new rating of a player after one timed game; see [`rate_games`].
pub fn rate_game<
    R: Copy,
    S: Copy,
    D: Fn(&R, ElapsedPeriods) -> R,
    F: Fn(&R, &Vec<Game<R, S>>, ElapsedPeriods) -> R,
>(player_rating: TimedRating<R>, game: TimedGame<R, S>, period: u64, decay: &D, update: &F) -> (r:
    Result<TimedRating<R>, RatingError>)
    requires
        decay_accepts_all(decay),
        accepts_all(update),
    ensures
        period == 0 ==> r == Err::<TimedRating<R>, RatingError>(RatingError::ZeroPeriodDuration),
        period > 0 ==> (r is Ok <==> player_rating.last_updated() <= game.time()
            && game.opponent().last_updated() <= game.time()),
        period > 0 && r is Err ==> r == Err::<TimedRating<R>, RatingError>(
            RatingError::TemporalInversion,
        ),
        r matches Ok(rated) ==> rated.last_updated() == game.time() && exists|now: R, opponent: R|
            {
                &&& decay.ensures(
                    (
                        &player_rating.raw_rating(),
                        ElapsedPeriods {
                            elapsed: (game.time() - player_rating.last_updated()) as u64,
                            period,
                        },
                    ),
                    now,
                )
                &&& decay.ensures(
                    (
                        &game.opponent().raw_rating(),
                        ElapsedPeriods {
                            elapsed: (game.time() - game.opponent().last_updated()) as u64,
                            period,
                        },
                    ),
                    opponent,
                )
                &&& #[trigger] updates_to(
                    update,
                    now,
                    seq![Game { opponent, score: game.score() }],
                    ElapsedPeriods { elapsed: 0, period },
                    rated.raw_rating(),
                )
            },
{
    let games = TimedGames::single(game);
    let r = rate_games(player_rating, &games, period, decay, update);
    proof {
        if r is Ok {
            let rated = r->Ok_0;
            let (now, played) = choose|now: R, played: Seq<Game<R, S>>|
                {
                    &&& decay.ensures(
                        (
                            &player_rating.raw_rating(),
                            ElapsedPeriods {
                                elapsed: (games.time() - player_rating.last_updated()) as u64,
                                period,
                            },
                        ),
                        now,
                    )
                    &&& resolves_games(decay, games.spec_games(), games.time(), period, played)
                    &&& #[trigger] updates_to(
                        update,
                        now,
                        played,
                        ElapsedPeriods { elapsed: 0, period },
                        rated.raw_rating(),
                    )
                };
            assert(played =~= seq![Game { opponent: played[0].opponent, score: game.score() }]);
        }
        assert(opponents_precede(games) <==> game.opponent().last_updated() <= game.time());
    }
    r
}

/// The new rating of a player after `games`, all played at one time.
///
/// The player's rating is first projected to the time of the games with `decay`, and so is each
/// opponent's; `update` then rates the player with those games and no further elapsed time
/// (`period` is the duration of a rating period, in nanoseconds). The result is valid from the
/// time of the games. Rating opponents as at the time of the games rather than as at the
/// player's last update is an approximation, whose error tends to be small.
///
/// Without games, the player's rating is returned unchanged. Otherwise it fails with
/// [`RatingError::ZeroPeriodDuration`] if `period` is zero, and with
/// [`RatingError::TemporalInversion`] if the player's or an opponent's rating was last updated
/// after the games.
pub fn rate_games<
    R: Copy,
    S: Copy,
    D: Fn(&R, ElapsedPeriods) -> R,
    F: Fn(&R, &Vec<Game<R, S>>, ElapsedPeriods) -> R,
>(player_rating: TimedRating<R>, games: &TimedGames<R, S>, period: u64, decay: &D, update: &F) -> (r:
    Result<TimedRating<R>, RatingError>)
    requires
        decay_accepts_all(decay),
        accepts_all(update),
    ensures
        games.spec_games().len() == 0 ==> r == Ok::<TimedRating<R>, RatingError>(player_rating),
        games.spec_games().len() > 0 && period == 0 ==> r == Err::<TimedRating<R>, RatingError>(
            RatingError::ZeroPeriodDuration,
        ),
        games.spec_games().len() > 0 && period > 0 ==> (r is Ok <==> player_rating.last_updated()
            <= games.time() && opponents_precede(*games)),
        games.spec_games().len() > 0 && period > 0 && r is Err ==> r == Err::<
            TimedRating<R>,
            RatingError,
        >(RatingError::TemporalInversion),
        r matches Ok(rated) ==> games.spec_games().len() > 0 ==> rated.last_updated()
            == games.time(),
        r matches Ok(rated) ==> games.spec_games().len() > 0 ==> rates_to(
            decay,
            update,
            player_rating,
            *games,
            period,
            rated.raw_rating(),
        ),
{
    if games.games.len() == 0 {
        return Ok(player_rating);
    }
    let time = games.time;
    let now = match player_rating.rating_at(time, period, decay) {
        Ok(rating) => rating,
        Err(err) => return Err(err),
    };
    let mut played: Vec<Game<R, S>> = Vec::new();
    let mut i: usize = 0;
    while i < games.games.len()
        invariant
            decay_accepts_all(decay),
            period > 0,
            time == games.time(),
            i <= games.spec_games().len(),
            played.len() == i,
            forall|k: int|
                0 <= k < i ==> (#[trigger] games.spec_games()[k]).opponent().last_updated() <= time,
            resolves_games(decay, games.spec_games().take(i as int), time, period, played@),
        decreases games.spec_games().len() - i,
    {
        match games.games[i].game_at(time, period, decay) {
            Ok(game) => played.push(game),
            Err(err) => return Err(err),
        }
        i += 1;
    }
    let rating = update(&now, &played, ElapsedPeriods { elapsed: 0, period });
    proof {
        assert(games.spec_games().take(i as int) =~= games.spec_games());
        assert(updates_to(update, now, played@, ElapsedPeriods { elapsed: 0, period }, rating));
        let since = ElapsedPeriods {
            elapsed: (time - player_rating.last_updated()) as u64,
            period,
        };
        assert(periods_between(player_rating.last_updated(), time, period)->Ok_0 == since);
        assert(rates_to(decay, update, player_rating, *games, period, rating));
    }
    Ok(TimedRating::new(time, rating))
}

} // verus!
