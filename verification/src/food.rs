//! The food spawner: at most one food cell at a time, placed on a
//! randomly sampled cell only when that cell is vacant.

use vstd::prelude::*;
use rand::Rng;
use crate::grid::{Position, pos_in_bounds, ARENA_WIDTH, ARENA_HEIGHT};
use crate::snake::Snake;

verus! {

/// Relies on `rand::thread_rng` and `rand::Rng::gen_range` over the
/// half-open range `0..bound`: the sample lies in that range (the
/// range is non-empty, so the call cannot panic).  Nothing more is
/// assumed of the value.
#[verifier::external_body]
fn random_coordinate(bound: i32) -> (r: i32)
    requires
        bound >= 1,
    ensures
        0 <= r < bound,
{
    rand::thread_rng().gen_range(0..bound)
}

/// Place food at `pos` only when no food exists and no snake cell —
/// head or body — stands on `pos`; otherwise leave the world alone.
pub fn try_place_food(food: &mut Option<Position>, snake: &Snake, pos: Position) -> (placed: bool)
    ensures
        placed == (*old(food) is None && !snake.occupied().contains(pos)),
        placed ==> *final(food) == Some(pos),
        !placed ==> *final(food) == *old(food),
{
    if food.is_some() {
        return false;
    }
    if snake.head == pos {
        assert(snake.occupied()[0] == pos);
        return false;
    }
    let mut i: usize = 0;
    while i < snake.body.len()
        invariant
            0 <= i <= snake.body@.len(),
            forall|j: int| 0 <= j < i ==> snake.body@[j] != pos,
        decreases snake.body@.len() - i,
    {
        if snake.body[i] == pos {
            assert(snake.occupied()[i + 1] == pos);
            return false;
        }
        i += 1;
    }
    proof {
        let occ = snake.occupied();
        assert forall|j: int| 0 <= j < occ.len() implies #[trigger] occ[j] != pos by {
            if j > 0 {
                assert(occ[j] == snake.body@[j - 1]);
            }
        }
        assert(!occ.contains(pos));
    }
    *food = Some(pos);
    true
}

/// One spawn attempt after the spawn timer fired: when no food
/// exists, sample a uniformly random cell of the arena and place food
/// there only if no snake cell stands on it; a busy cell skips the
/// attempt until the next period.  Whatever cell the sample gives,
/// food is never placed on an occupied cell, and never while a food
/// already exists.
pub fn food_spawner(food: &mut Option<Position>, snake: &Snake) -> (placed: bool)
    ensures
        *old(food) is Some ==> !placed && *final(food) == *old(food),
        !placed ==> *final(food) == *old(food),
        placed ==> *old(food) is None
            && (*final(food) matches Some(p)
                && pos_in_bounds(p)
                && !snake.occupied().contains(p)),
{
    if food.is_some() {
        return false;
    }
    let pos = Position {
        x: random_coordinate(ARENA_WIDTH),
        y: random_coordinate(ARENA_HEIGHT),
    };
    try_place_food(food, snake, pos)
}

} // verus!
