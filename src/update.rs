//! What the library knows of the rating update it is handed.
//!
//! The numerical Glicko-2 update is a closure `update(rating, games, elapsed)` of the caller's;
//! the library promises only to call it with the right inputs, and states its results through
//! the closure's own postcondition.
use vstd::prelude::*;

use crate::game::Game;
use crate::period::ElapsedPeriods;

verus! {

/// The update accepts every rating, list of games and elapsed time.
pub open spec fn accepts_all<R, S, F: Fn(&R, &Vec<Game<R, S>>, ElapsedPeriods) -> R>(
    update: &F,
) -> bool {
    forall|r: R, g: Vec<Game<R, S>>, e: ElapsedPeriods| #[trigger]
        update.requires((&r, &g, e))
}

/// `rating` is a possible result of `update` for a player rated `before`, with `games` recorded,
/// after `elapsed` rating periods.
pub open spec fn updates_to<R, S, F: Fn(&R, &Vec<Game<R, S>>, ElapsedPeriods) -> R>(
    update: &F,
    before: R,
    games: Seq<Game<R, S>>,
    elapsed: ElapsedPeriods,
    rating: R,
) -> bool {
    exists|v: Vec<Game<R, S>>| v@ == games && #[trigger] update.ensures((&before, &v, elapsed), rating)
}

/// The decay accepts every rating and elapsed time.
pub open spec fn decay_accepts_all<R, F: Fn(&R, ElapsedPeriods) -> R>(decay: &F) -> bool {
    forall|r: R, e: ElapsedPeriods| #[trigger] decay.requires((&r, e))
}

} // verus!
