//! Movement directions and the opposite mapping.

use vstd::prelude::*;

verus! {

/// A movement direction of the snake's head.
#[derive(Clone, Copy, PartialEq, Eq, Structural, Debug)]
pub enum Direction {
    Up,
    Down,
    Left,
    Right,
}

impl Direction {
    /// The reverse of a direction.
    pub open spec fn opposite_spec(self) -> Direction {
        match self {
            Direction::Up => Direction::Down,
            Direction::Down => Direction::Up,
            Direction::Left => Direction::Right,
            Direction::Right => Direction::Left,
        }
    }

    /// Total mapping to the reverse direction; no direction is its own
    /// opposite.
    #[verifier::when_used_as_spec(opposite_spec)]
    pub fn opposite(self) -> (r: Direction)
        ensures
            r == self.opposite_spec(),
            r != self,
    {
        match self {
            Direction::Up => Direction::Down,
            Direction::Down => Direction::Up,
            Direction::Left => Direction::Right,
            Direction::Right => Direction::Left,
        }
    }
}

} // verus!
