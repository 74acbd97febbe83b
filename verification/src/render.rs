//! The drawable output of one frame: every positioned entity with its
//! kind, handed to the host renderer.  The continuous projection of
//! these discrete positions, and each kind's colour, are the host's
//! side of the interface.

use vstd::prelude::*;
use crate::grid::Position;
use crate::game::Game;

verus! {

/// What kind of entity a drawable cell holds.
#[derive(Clone, Copy, PartialEq, Eq, Structural, Debug)]
pub enum EntityKind {
    Head,
    Segment,
    Food,
}

/// One drawable entity: a grid cell and its kind.
#[derive(Clone, Copy, PartialEq, Eq, Structural, Debug)]
pub struct Drawable {
    pub pos: Position,
    pub kind: EntityKind,
}

/// Logical square footprint of an entity, in hundredths of a tile:
/// 80 for the head and the food, 75 for a body segment.
pub open spec fn size_hundredths_spec(kind: EntityKind) -> u64 {
    match kind {
        EntityKind::Head => 80,
        EntityKind::Segment => 75,
        EntityKind::Food => 80,
    }
}

/// Logical square footprint of an entity, in hundredths of a tile.
#[verifier::when_used_as_spec(size_hundredths_spec)]
pub fn size_hundredths(kind: EntityKind) -> (s: u64)
    ensures
        s == size_hundredths_spec(kind),
{
    match kind {
        EntityKind::Head => 80,
        EntityKind::Segment => 75,
        EntityKind::Food => 80,
    }
}

/// The entities to draw this frame, whatever the game state: the head
/// first, then every body segment front to tail, then the food when
/// one exists.
pub fn drawables(game: &Game) -> (v: Vec<Drawable>)
    ensures
        v@.len() == 1 + game.snake.body@.len() + if game.food is Some { 1int } else { 0 },
        v@[0] == (Drawable { pos: game.snake.head, kind: EntityKind::Head }),
        forall|i: int| 0 <= i < game.snake.body@.len() ==> v@[1 + i]
            == (Drawable { pos: game.snake.body@[i], kind: EntityKind::Segment }),
        game.food matches Some(p) ==> v@.last() == (Drawable { pos: p, kind: EntityKind::Food }),
{
    let mut v: Vec<Drawable> = Vec::new();
    v.push(Drawable { pos: game.snake.head, kind: EntityKind::Head });
    let mut i: usize = 0;
    while i < game.snake.body.len()
        invariant
            0 <= i <= game.snake.body@.len(),
            v@.len() == 1 + i,
            v@[0] == (Drawable { pos: game.snake.head, kind: EntityKind::Head }),
            forall|j: int| 0 <= j < i ==> v@[1 + j]
                == (Drawable { pos: game.snake.body@[j], kind: EntityKind::Segment }),
        decreases game.snake.body@.len() - i,
    {
        v.push(Drawable { pos: game.snake.body[i], kind: EntityKind::Segment });
        i += 1;
    }
    if let Some(p) = game.food {
        v.push(Drawable { pos: p, kind: EntityKind::Food });
    }
    v
}

} // verus!
