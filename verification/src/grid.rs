//! Arena bounds and the discrete position type.

use vstd::prelude::*;

verus! {

/// Width of the arena in cells; valid x coordinates are `0 .. ARENA_WIDTH`.
pub const ARENA_WIDTH: i32 = 15;

/// Height of the arena in cells; valid y coordinates are `0 .. ARENA_HEIGHT`.
pub const ARENA_HEIGHT: i32 = 15;

/// One cell of the grid.  Each entity (head, body segment, food) owns
/// exactly one; equality is exact integer comparison.
#[derive(Clone, Copy, PartialEq, Eq, Structural, Debug)]
pub struct Position {
    pub x: i32,
    pub y: i32,
}

/// A position lies inside the arena: `[0, ARENA_WIDTH) x [0, ARENA_HEIGHT)`.
pub open spec fn pos_in_bounds(p: Position) -> bool {
    0 <= p.x < ARENA_WIDTH && 0 <= p.y < ARENA_HEIGHT
}

/// Bounds check for a position.
pub fn in_bounds(p: Position) -> (r: bool)
    ensures
        r == pos_in_bounds(p),
{
    0 <= p.x && p.x < ARENA_WIDTH && 0 <= p.y && p.y < ARENA_HEIGHT
}

} // verus!
