//! A recorded game, seen from one player's side.
use vstd::prelude::*;

verus! {

/// A game from the point of view of one player: the opponent's rating at the time the game was
/// recorded, and the player's score.
///
/// The score is conventionally a number between `0.0` (decisive opponent win) and `1.0`
/// (decisive player win); the rating update that consumes games decides how it is read.
#[derive(Clone, Copy, Debug)]
pub struct Game<R, S> {
    /// The opponent's rating.
    pub opponent: R,
    /// The player's score.
    pub score: S,
}

impl<R: Copy, S: Copy> Game<R, S> {
    /// A game against an opponent rated `opponent`, in which the player scored `score`.
    pub fn new(opponent: R, score: S) -> (r: Self)
        ensures
            r == (Game { opponent, score }),
    {
        Game { opponent, score }
    }

    /// The opponent's rating.
    pub fn opponent(&self) -> (r: R)
        ensures
            r == self.opponent,
    {
        self.opponent
    }

    /// The player's score.
    pub fn score(&self) -> (r: S)
        ensures
            r == self.score,
    {
        self.score
    }
}

} // verus!
