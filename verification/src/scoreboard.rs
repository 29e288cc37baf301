use vstd::prelude::*;

verus! {

/// Points scored by one hit on a brick.
pub const BRICK_SCORE: usize = 10;

/// The player's score. Nothing in the game lowers it.
#[derive(Clone, Copy, Debug, PartialEq, Eq, Structural)]
pub struct Scoreboard {
    pub score: usize,
}

} // verus!
