//! The [`RatingEngine`], which manages players and rating periods so that ratings can be read at
//! any instant.
use vstd::prelude::*;

use crate::error::RatingError;
use crate::game::Game;
use crate::period::{elapsed_between, periods_between, ElapsedPeriods, Timestamp};
use crate::update::{accepts_all, updates_to};
use crate::util::PushOnlyVec;

verus! {

/// An opaque reference to a player, handed out by [`RatingEngine`].
#[derive(Clone, Copy, PartialEq, Eq, Hash, Debug)]
pub struct PlayerHandle(usize);

impl PlayerHandle {
    /// The position of the player in the engine that handed out this handle.
    pub closed spec fn index(self) -> int {
        self.0 as int
    }
}

/// A simple match result, from the first player's point of view.
#[derive(Clone, Copy, PartialEq, Eq, Structural, PartialOrd, Ord, Debug)]
pub enum MatchResult {
    /// The player won.
    Win,
    /// The players drew.
    Draw,
    /// The opponent won.
    Loss,
}

impl MatchResult {
    /// The same match result, from the opponent's point of view.
    pub fn invert(self) -> (r: Self)
        ensures
            self == MatchResult::Win ==> r == MatchResult::Loss,
            self == MatchResult::Draw ==> r == MatchResult::Draw,
            self == MatchResult::Loss ==> r == MatchResult::Win,
    {
        match self {
            MatchResult::Win => MatchResult::Loss,
            MatchResult::Draw => MatchResult::Draw,
            MatchResult::Loss => MatchResult::Win,
        }
    }
}

/// A player as managed by [`RatingEngine`].
#[derive(Clone, Debug)]
pub struct EnginePlayer<R, S> {
    rating: R,
    current_rating_period_results: Vec<Game<R, S>>,
}

impl<R: Copy, S: Copy> EnginePlayer<R, S> {
    /// The rating at the start of the current rating period.
    pub closed spec fn spec_rating(&self) -> R {
        self.rating
    }

    /// The games recorded in the current rating period, oldest first.
    pub closed spec fn results(&self) -> Seq<Game<R, S>> {
        self.current_rating_period_results@
    }

    /// The rating of this player at the start of the current rating period.
    #[verifier::when_used_as_spec(spec_rating)]
    pub fn rating(&self) -> (r: R)
        ensures
            r == self.spec_rating(),
    {
        self.rating
    }

    /// The games the player had in the current rating period, oldest first.
    pub fn current_rating_period_results(&self) -> (r: &[Game<R, S>])
        ensures
            r@ == self.results(),
    {
        self.current_rating_period_results.as_slice()
    }
}

/// The games still pending after `count` rating periods were closed: all of them were folded
/// into the rating by the first closure.
pub open spec fn pending_after<R, S>(games: Seq<Game<R, S>>, count: nat) -> Seq<Game<R, S>> {
    if count == 0 {
        games
    } else {
        Seq::empty()
    }
}

/// `rating` is a possible result of closing `count` rating periods of `period` nanoseconds, one
/// after the other, for a player rated `start` with `games` recorded in the first of them.
pub open spec fn closes_to<R, S, F: Fn(&R, &Vec<Game<R, S>>, ElapsedPeriods) -> R>(
    update: &F,
    start: R,
    games: Seq<Game<R, S>>,
    period: u64,
    count: nat,
    rating: R,
) -> bool
    decreases count,
{
    if count == 0 {
        rating == start
    } else {
        exists|before: R|
            closes_to(update, start, games, period, (count - 1) as nat, before)
                && #[trigger] updates_to(
                update,
                before,
                pending_after(games, (count - 1) as nat),
                ElapsedPeriods { elapsed: period, period },
                rating,
            )
    }
}

/// Manages player ratings and computes them from recorded match results.
///
/// Results are collected per rating period. Whenever an operation reaches an instant past the
/// end of the current period, the elapsed periods are closed first, one at a time and in order:
/// every player's rating is updated with the games of that period, which are then cleared.
/// Ratings in between are projected with the fraction of the current period that has elapsed.
///
/// The numerical rating update is not part of the engine: the operations that may close rating
/// periods take it as a closure `update(rating, games, elapsed)`.
#[derive(Clone, Debug)]
pub struct RatingEngine<R, S> {
    last_rating_period_start: Timestamp,
    rating_period_duration: u64,
    // Handles are indices into this list, so it must never shrink or reorder.
    managed_players: PushOnlyVec<EnginePlayer<R, S>>,
}

impl<R: Copy, S: Copy> RatingEngine<R, S> {
    /// Well-formedness: rating periods last a positive time.
    pub closed spec fn wf(&self) -> bool {
        self.rating_period_duration > 0
    }

    /// The start of the current rating period.
    pub closed spec fn period_start(&self) -> Timestamp {
        self.last_rating_period_start
    }

    /// The duration of one rating period, in nanoseconds.
    pub closed spec fn period_duration(&self) -> u64 {
        self.rating_period_duration
    }

    /// The managed players; a handle's index is a position in this sequence.
    pub closed spec fn players(&self) -> Seq<EnginePlayer<R, S>> {
        self.managed_players@
    }

    /// `player` was handed out by this engine.
    pub open spec fn owns(&self, player: PlayerHandle) -> bool {
        0 <= player.index() < self.players().len()
    }

    /// `after` is this engine once the `count` rating periods that ended by `time` were closed by
    /// `update`: the current period starts where the last closed one ended, and every player this
    /// engine already had holds the rating those closures reached.
    pub open spec fn closes_periods<F: Fn(&R, &Vec<Game<R, S>>, ElapsedPeriods) -> R>(
        &self,
        update: &F,
        time: Timestamp,
        count: nat,
        after: &Self,
    ) -> bool {
        &&& self.period_start() <= time
        &&& count == (time - self.period_start()) / (self.period_duration() as int)
        &&& after.period_duration() == self.period_duration()
        &&& after.period_start() == self.period_start() + count * self.period_duration()
        &&& after.players().len() >= self.players().len()
        &&& forall|i: int|
            0 <= i < self.players().len() ==> closes_to(
                update,
                self.players()[i].spec_rating(),
                self.players()[i].results(),
                self.period_duration(),
                count,
                #[trigger] after.players()[i].spec_rating(),
            )
    }

    /// Every player of this engine has in `after` the games still pending after `count` rating
    /// periods were closed.
    pub open spec fn keeps_pending(&self, count: nat, after: &Self) -> bool {
        &&& after.players().len() >= self.players().len()
        &&& forall|i: int|
            0 <= i < self.players().len() ==> #[trigger] after.players()[i].results()
                == pending_after(self.players()[i].results(), count)
    }

    /// Creates an engine whose first rating period starts at `start_time` and whose periods last
    /// `rating_period_duration` nanoseconds.
    ///
    /// Fails with [`RatingError::ZeroPeriodDuration`] if the duration is zero.
    pub fn start_new_at(start_time: Timestamp, rating_period_duration: u64) -> (r: Result<
        Self,
        RatingError,
    >)
        ensures
            r is Ok <==> rating_period_duration > 0,
            r matches Ok(e) ==> e.wf() && e.period_start() == start_time && e.period_duration()
                == rating_period_duration && e.players().len() == 0,
            r matches Err(err) ==> err == RatingError::ZeroPeriodDuration,
    {
        if rating_period_duration == 0 {
            return Err(RatingError::ZeroPeriodDuration);
        }
        Ok(RatingEngine {
            last_rating_period_start: start_time,
            rating_period_duration,
            managed_players: PushOnlyVec::new(),
        })
    }

    /// The start of the current rating period.
    pub fn last_rating_period_start(&self) -> (r: Timestamp)
        ensures
            r == self.period_start(),
    {
        self.last_rating_period_start
    }

    /// The duration of one rating period, in nanoseconds.
    pub fn rating_period_duration(&self) -> (r: u64)
        requires
            self.wf(),
        ensures
            r == self.period_duration(),
            r > 0,
    {
        self.rating_period_duration
    }

    /// The rating periods elapsed from the start of the current one to `time`.
    ///
    /// Fails with [`RatingError::TemporalInversion`] if `time` lies before that start.
    pub fn elapsed_periods_at(&self, time: Timestamp) -> (r: Result<ElapsedPeriods, RatingError>)
        requires
            self.wf(),
        ensures
            r == periods_between(self.period_start(), time, self.period_duration()),
            r is Ok <==> self.period_start() <= time,
    {
        elapsed_between(self.last_rating_period_start, time, self.rating_period_duration)
    }

    /// Closes `count` rating periods, one after the other: each player's rating is replaced by
    /// `update` on that rating, the player's games and one full period; the games are then
    /// cleared.
    fn close_periods<F: Fn(&R, &Vec<Game<R, S>>, ElapsedPeriods) -> R>(
        &mut self,
        count: u64,
        update: &F,
    )
        requires
            old(self).wf(),
            accepts_all(update),
        ensures
            final(self).wf(),
            final(self).period_start() == old(self).period_start(),
            final(self).period_duration() == old(self).period_duration(),
            final(self).players().len() == old(self).players().len(),
            forall|i: int| #![trigger final(self).players()[i]]
                0 <= i < old(self).players().len() ==> closes_to(
                    update,
                    old(self).players()[i].spec_rating(),
                    old(self).players()[i].results(),
                    old(self).period_duration(),
                    count as nat,
                    final(self).players()[i].spec_rating(),
                ) && final(self).players()[i].results() == pending_after(
                    old(self).players()[i].results(),
                    count as nat,
                ),
    {
        let ghost start = *old(self);
        let one = ElapsedPeriods::one(self.rating_period_duration);
        let n = self.managed_players.vec().len();
        let mut j: u64 = 0;
        while j < count
            invariant
                0 <= j <= count,
                accepts_all(update),
                one.elapsed == start.period_duration() && one.period == start.period_duration(),
                start.period_duration() > 0,
                n == start.players().len(),
                self.period_start() == start.period_start(),
                self.period_duration() == start.period_duration(),
                self.players().len() == n,
                forall|i: int| #![trigger self.players()[i]]
                    0 <= i < n ==> closes_to(
                        update,
                        start.players()[i].spec_rating(),
                        start.players()[i].results(),
                        start.period_duration(),
                        j as nat,
                        self.players()[i].spec_rating(),
                    ) && self.players()[i].results() == pending_after(
                        start.players()[i].results(),
                        j as nat,
                    ),
            decreases count - j,
        {
            let mut k: usize = 0;
            while k < n
                invariant
                    0 <= j < count,
                    0 <= k <= n,
                    accepts_all(update),
                    one.elapsed == start.period_duration() && one.period == start.period_duration(),
                    start.period_duration() > 0,
                    n == start.players().len(),
                    self.period_start() == start.period_start(),
                    self.period_duration() == start.period_duration(),
                    self.players().len() == n,
                    forall|i: int| #![trigger self.players()[i]]
                        0 <= i < k ==> closes_to(
                            update,
                            start.players()[i].spec_rating(),
                            start.players()[i].results(),
                            start.period_duration(),
                            (j + 1) as nat,
                            self.players()[i].spec_rating(),
                        ) && self.players()[i].results() == pending_after(
                            start.players()[i].results(),
                            (j + 1) as nat,
                        ),
                    forall|i: int| #![trigger self.players()[i]]
                        k <= i < n ==> closes_to(
                            update,
                            start.players()[i].spec_rating(),
                            start.players()[i].results(),
                            start.period_duration(),
                            j as nat,
                            self.players()[i].spec_rating(),
                        ) && self.players()[i].results() == pending_after(
                            start.players()[i].results(),
                            j as nat,
                        ),
                decreases n - k,
            {
                let player = &self.managed_players.vec()[k];
                let rating = update(&player.rating, &player.current_rating_period_results, one);
                proof {
                    let before = player.rating;
                    let full = ElapsedPeriods {
                        elapsed: start.period_duration(),
                        period: start.period_duration(),
                    };
                    assert(one == full);
                    assert(updates_to(
                        update,
                        before,
                        pending_after(
                            start.players()[k as int].results(),
                            ((j + 1) as nat - 1) as nat,
                        ),
                        full,
                        rating,
                    ));
                }
                if let Some(player) = self.managed_players.get_mut(k) {
                    player.rating = rating;
                    player.current_rating_period_results.clear();
                }
                k += 1;
            }
            j += 1;
        }
    }

    /// Closes every rating period that has ended by `time` and moves the start of the current
    /// period accordingly; returns how many were closed.
    fn close_until<F: Fn(&R, &Vec<Game<R, S>>, ElapsedPeriods) -> R>(
        &mut self,
        time: Timestamp,
        update: &F,
    ) -> (count: u64)
        requires
            old(self).wf(),
            accepts_all(update),
            old(self).period_start() <= time,
        ensures
            final(self).wf(),
            old(self).closes_periods(update, time, count as nat, final(self)),
            old(self).keeps_pending(count as nat, final(self)),
            final(self).players().len() == old(self).players().len(),
            final(self).period_start() <= time < final(self).period_start()
                + final(self).period_duration(),
            time - final(self).period_start() == (time - old(self).period_start()) % (old(
                self,
            ).period_duration() as int),
    {
        let elapsed = time - self.last_rating_period_start;
        let count = elapsed / self.rating_period_duration;
        let remainder = elapsed % self.rating_period_duration;
        proof {
            vstd::arithmetic::div_mod::lemma_fundamental_div_mod(
                elapsed as int,
                self.rating_period_duration as int,
            );
            vstd::arithmetic::mul::lemma_mul_is_commutative(
                count as int,
                self.rating_period_duration as int,
            );
        }
        self.close_periods(count, update);
        self.last_rating_period_start = time - remainder;
        count
    }

    /// Closes every rating period that has ended by `time`.
    ///
    /// Returns the part of the current rating period that has elapsed at `time` (always less
    /// than one period) and the number of periods that were closed. Calling it again at the same
    /// instant closes nothing.
    ///
    /// Fails with [`RatingError::TemporalInversion`], changing nothing, if `time` lies before
    /// the start of the current rating period.
    pub fn maybe_close_rating_periods_at<F: Fn(&R, &Vec<Game<R, S>>, ElapsedPeriods) -> R>(
        &mut self,
        time: Timestamp,
        update: &F,
    ) -> (r: Result<(ElapsedPeriods, u64), RatingError>)
        requires
            old(self).wf(),
            accepts_all(update),
        ensures
            final(self).wf(),
            time < old(self).period_start() ==> r == Err::<(ElapsedPeriods, u64), RatingError>(
                RatingError::TemporalInversion,
            ) && *final(self) == *old(self),
            old(self).period_start() <= time ==> (r matches Ok((fraction, count)) && {
                &&& old(self).closes_periods(update, time, count as nat, final(self))
                &&& old(self).keeps_pending(count as nat, final(self))
                &&& final(self).players().len() == old(self).players().len()
                &&& fraction.elapsed == time - final(self).period_start()
                &&& fraction.period == final(self).period_duration()
                &&& fraction.elapsed < fraction.period
            }),
    {
        if time < self.last_rating_period_start {
            return Err(RatingError::TemporalInversion);
        }
        let count = self.close_until(time, update);
        let fraction = ElapsedPeriods {
            elapsed: time - self.last_rating_period_start,
            period: self.rating_period_duration,
        };
        Ok((fraction, count))
    }

    /// Registers a new player with the given rating, taken as the rating at the start of the
    /// current rating period, after closing every rating period that has ended by `time`.
    ///
    /// Returns the new player's handle and the number of rating periods that were closed.
    ///
    /// Fails with [`RatingError::TemporalInversion`], changing nothing, if `time` lies before
    /// the start of the current rating period.
    pub fn register_player_at<F: Fn(&R, &Vec<Game<R, S>>, ElapsedPeriods) -> R>(
        &mut self,
        rating: R,
        time: Timestamp,
        update: &F,
    ) -> (r: Result<(PlayerHandle, u64), RatingError>)
        requires
            old(self).wf(),
            accepts_all(update),
        ensures
            final(self).wf(),
            time < old(self).period_start() ==> r == Err::<(PlayerHandle, u64), RatingError>(
                RatingError::TemporalInversion,
            ) && *final(self) == *old(self),
            old(self).period_start() <= time ==> (r matches Ok((player, count)) && {
                let n = old(self).players().len();
                &&& old(self).closes_periods(update, time, count as nat, final(self))
                &&& old(self).keeps_pending(count as nat, final(self))
                &&& final(self).players().len() == n + 1
                &&& player.index() == n
                &&& final(self).players()[n as int].spec_rating() == rating
                &&& final(self).players()[n as int].results() == Seq::<Game<R, S>>::empty()
            }),
    {
        if time < self.last_rating_period_start {
            return Err(RatingError::TemporalInversion);
        }
        let count = self.close_until(time, update);
        let index = self.managed_players.vec().len();
        self.managed_players.push(EnginePlayer { rating, current_rating_period_results: Vec::new() });
        Ok((PlayerHandle(index), count))
    }

    /// The rating of `player` at the start of the current rating period.
    ///
    /// Fails with [`RatingError::UnknownPlayer`] if this engine did not hand out `player`.
    pub fn last_rating_period_rating(&self, player: PlayerHandle) -> (r: Result<R, RatingError>)
        ensures
            self.owns(player) ==> r == Ok::<R, RatingError>(
                self.players()[player.index()].spec_rating(),
            ),
            !self.owns(player) ==> r == Err::<R, RatingError>(RatingError::UnknownPlayer),
    {
        if player.0 < self.managed_players.vec().len() {
            Ok(self.managed_players.vec()[player.0].rating)
        } else {
            Err(RatingError::UnknownPlayer)
        }
    }

    /// The handles of all registered players, in the order they were registered.
    pub fn player_handles(&self) -> (r: Vec<PlayerHandle>)
        ensures
            r.len() == self.players().len(),
            forall|i: int| 0 <= i < r.len() ==> (#[trigger] r[i]).index() == i,
    {
        let n = self.managed_players.vec().len();
        let mut handles: Vec<PlayerHandle> = Vec::new();
        let mut i: usize = 0;
        while i < n
            invariant
                n == self.players().len(),
                i <= n,
                handles.len() == i,
                forall|k: int| 0 <= k < i ==> (#[trigger] handles[k]).index() == k,
            decreases n - i,
        {
            handles.push(PlayerHandle(i));
            i += 1;
        }
        handles
    }

    /// Records a match between `player_1` and `player_2` at `time`, in which `player_1` scored
    /// `player_score` and `player_2` scored `opponent_score`.
    ///
    /// Every rating period that has ended by `time` is closed first, so that the result lands in
    /// the current one. Each player then gets a game against the other's rating at the start of
    /// the current period (the opponent is taken as rated when the result is registered). The
    /// ratings themselves change only when a period closes or a rating is read.
    ///
    /// Returns the number of rating periods that were closed. Fails, changing nothing, with
    /// [`RatingError::TemporalInversion`] if `time` lies before the start of the current rating
    /// period, and otherwise with [`RatingError::UnknownPlayer`] if this engine did not hand out
    /// one of the players.
    pub fn register_result_at<F: Fn(&R, &Vec<Game<R, S>>, ElapsedPeriods) -> R>(
        &mut self,
        player_1: PlayerHandle,
        player_2: PlayerHandle,
        player_score: S,
        opponent_score: S,
        time: Timestamp,
        update: &F,
    ) -> (r: Result<u64, RatingError>)
        requires
            old(self).wf(),
            accepts_all(update),
        ensures
            final(self).wf(),
            time < old(self).period_start() ==> r == Err::<u64, RatingError>(
                RatingError::TemporalInversion,
            ) && *final(self) == *old(self),
            old(self).period_start() <= time && !(old(self).owns(player_1) && old(self).owns(
                player_2,
            )) ==> r == Err::<u64, RatingError>(RatingError::UnknownPlayer) && *final(self)
                == *old(self),
            old(self).period_start() <= time && old(self).owns(player_1) && old(self).owns(
                player_2,
            ) ==> (r matches Ok(count) && {
                let (a, b) = (player_1.index(), player_2.index());
                let rating_a = final(self).players()[a].spec_rating();
                let rating_b = final(self).players()[b].spec_rating();
                let pending_a = pending_after(old(self).players()[a].results(), count as nat);
                let pending_b = pending_after(old(self).players()[b].results(), count as nat);
                let game_a = Game { opponent: rating_b, score: player_score };
                let game_b = Game { opponent: rating_a, score: opponent_score };
                &&& old(self).closes_periods(update, time, count as nat, final(self))
                &&& final(self).players().len() == old(self).players().len()
                &&& forall|i: int|
                    0 <= i < old(self).players().len() && i != a && i != b
                        ==> #[trigger] final(self).players()[i].results() == pending_after(
                        old(self).players()[i].results(),
                        count as nat,
                    )
                &&& a != b ==> final(self).players()[a].results() == pending_a.push(game_a)
                    && final(self).players()[b].results() == pending_b.push(game_b)
                &&& a == b ==> final(self).players()[a].results() == pending_a.push(game_a).push(
                    game_b,
                )
            }),
    {
        if time < self.last_rating_period_start {
            return Err(RatingError::TemporalInversion);
        }
        let n = self.managed_players.vec().len();
        if player_1.0 >= n || player_2.0 >= n {
            return Err(RatingError::UnknownPlayer);
        }
        let count = self.close_until(time, update);
        let ghost closed = *self;
        let rating_1 = self.managed_players.vec()[player_1.0].rating;
        let rating_2 = self.managed_players.vec()[player_2.0].rating;
        if let Some(player) = self.managed_players.get_mut(player_1.0) {
            player.current_rating_period_results.push(Game::new(rating_2, player_score));
        }
        if let Some(player) = self.managed_players.get_mut(player_2.0) {
            player.current_rating_period_results.push(Game::new(rating_1, opponent_score));
        }
        proof {
            assert forall|i: int| 0 <= i < n implies #[trigger] self.players()[i].spec_rating()
                == closed.players()[i].spec_rating() by {}
            assert forall|i: int|
                0 <= i < n && i != player_1.index() && i != player_2.index() implies
                #[trigger] self.players()[i].results() == closed.players()[i].results() by {}
            let (a, b) = (player_1.index(), player_2.index());
            let game_1 = Game { opponent: rating_2, score: player_score };
            let game_2 = Game { opponent: rating_1, score: opponent_score };
            assert(closed.players()[a].results() == pending_after(
                old(self).players()[a].results(),
                count as nat,
            ));
            assert(closed.players()[b].results() == pending_after(
                old(self).players()[b].results(),
                count as nat,
            ));
            if a != b {
                assert(self.players()[a].results() == closed.players()[a].results().push(game_1));
                assert(self.players()[b].results() == closed.players()[b].results().push(game_2));
            } else {
                assert(self.players()[a].results() == closed.players()[a].results().push(
                    game_1,
                ).push(game_2));
            }
            assert(old(self).closes_periods(update, time, count as nat, self));
        }
        Ok(count)
    }

    /// The rating of `player` at `time`, from the games registered for them.
    ///
    /// Every rating period that has ended by `time` is closed first. The result is then `update`
    /// on the player's rating at the start of the current period, the games pending in it and
    /// the fraction of it elapsed at `time`; the stored rating is not changed by this last step.
    ///
    /// Returns the rating and the number of rating periods that were closed. Fails, changing
    /// nothing, with [`RatingError::TemporalInversion`] if `time` lies before the start of the
    /// current rating period, and otherwise with [`RatingError::UnknownPlayer`] if this engine
    /// did not hand out `player`.
    pub fn player_rating_at<F: Fn(&R, &Vec<Game<R, S>>, ElapsedPeriods) -> R>(
        &mut self,
        player: PlayerHandle,
        time: Timestamp,
        update: &F,
    ) -> (r: Result<(R, u64), RatingError>)
        requires
            old(self).wf(),
            accepts_all(update),
        ensures
            final(self).wf(),
            time < old(self).period_start() ==> r == Err::<(R, u64), RatingError>(
                RatingError::TemporalInversion,
            ) && *final(self) == *old(self),
            old(self).period_start() <= time && !old(self).owns(player) ==> r == Err::<
                (R, u64),
                RatingError,
            >(RatingError::UnknownPlayer) && *final(self) == *old(self),
            old(self).period_start() <= time && old(self).owns(player) ==> (r matches Ok(
                (rating, count),
            ) && {
                let p = final(self).players()[player.index()];
                &&& old(self).closes_periods(update, time, count as nat, final(self))
                &&& old(self).keeps_pending(count as nat, final(self))
                &&& final(self).players().len() == old(self).players().len()
                &&& updates_to(
                    update,
                    p.spec_rating(),
                    p.results(),
                    ElapsedPeriods {
                        elapsed: (time - final(self).period_start()) as u64,
                        period: final(self).period_duration(),
                    },
                    rating,
                )
            }),
    {
        if time < self.last_rating_period_start {
            return Err(RatingError::TemporalInversion);
        }
        if player.0 >= self.managed_players.vec().len() {
            return Err(RatingError::UnknownPlayer);
        }
        let count = self.close_until(time, update);
        let fraction = ElapsedPeriods {
            elapsed: time - self.last_rating_period_start,
            period: self.rating_period_duration,
        };
        let p = &self.managed_players.vec()[player.0];
        let rating = update(&p.rating, &p.current_rating_period_results, fraction);
        proof {
            assert(updates_to(update, p.rating, p.current_rating_period_results@, fraction, rating));
        }
        Ok((rating, count))
    }
}

/// Closing rating periods is idempotent: once every period that ended by `time` is closed,
/// none is left to close at the same instant.
pub proof fn lemma_closing_is_idempotent<R: Copy, S: Copy, F: Fn(&R, &Vec<Game<R, S>>, ElapsedPeriods) -> R>(
    before: RatingEngine<R, S>,
    after: RatingEngine<R, S>,
    update: &F,
    time: Timestamp,
    count: nat,
)
    requires
        before.wf(),
        before.closes_periods(update, time, count, &after),
    ensures
        after.period_start() <= time,
        (time - after.period_start()) / (after.period_duration() as int) == 0,
{
    let d = before.period_duration() as int;
    let x = time - before.period_start();
    vstd::arithmetic::div_mod::lemma_fundamental_div_mod(x, d);
    vstd::arithmetic::mul::lemma_mul_is_commutative(count as int, d);
    assert(time - after.period_start() == x % d);
    vstd::arithmetic::div_mod::lemma_mod_bound(x, d);
    vstd::arithmetic::div_mod::lemma_basic_div(x % d, d);
}

} // verus!
