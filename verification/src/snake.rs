//! The snake state machine: displacement, collision checking, the
//! rigid body shift, growth, and the input-direction rule.

use vstd::prelude::*;
use crate::grid::{Position, pos_in_bounds, in_bounds, ARENA_WIDTH, ARENA_HEIGHT};
use crate::direction::Direction;

verus! {

/// Unit displacement of `p` in direction `d`.  `Up` increases y,
/// `Down` decreases it; `Right` increases x, `Left` decreases it.
pub open spec fn displaced(p: Position, d: Direction) -> Position {
    match d {
        Direction::Up => Position { x: p.x, y: (p.y + 1) as i32 },
        Direction::Down => Position { x: p.x, y: (p.y - 1) as i32 },
        Direction::Left => Position { x: (p.x - 1) as i32, y: p.y },
        Direction::Right => Position { x: (p.x + 1) as i32, y: p.y },
    }
}

/// All entries of `s` are pairwise distinct.
pub open spec fn all_distinct(s: Seq<Position>) -> bool {
    forall|i: int, j: int| 0 <= i < j < s.len() ==> #[trigger] s[i] != #[trigger] s[j]
}

/// What `get_next_head_pos` returns: the displaced head cell when it
/// lies inside the arena and on no occupied cell, and `None` (a
/// collision) otherwise.
pub open spec fn next_head_spec(head: Position, d: Direction, occupied: Seq<Position>) -> Option<Position> {
    let q = displaced(head, d);
    if pos_in_bounds(q) && !occupied.contains(q) {
        Some(q)
    } else {
        None
    }
}

/// Next head cell for a head at `head_pos` moving in `direction`, with
/// `segments` the occupied body cells the head may not enter (the
/// head's own current cell is about to be vacated and is not among
/// them).  `None` signals a collision with a wall or a segment.
pub fn get_next_head_pos(head_pos: Position, direction: Direction, segments: &Vec<Position>) -> (r: Option<Position>)
    requires
        pos_in_bounds(head_pos),
    ensures
        r == next_head_spec(head_pos, direction, segments@),
{
    let next = match direction {
        Direction::Up => Position { x: head_pos.x, y: head_pos.y + 1 },
        Direction::Down => Position { x: head_pos.x, y: head_pos.y - 1 },
        Direction::Left => Position { x: head_pos.x - 1, y: head_pos.y },
        Direction::Right => Position { x: head_pos.x + 1, y: head_pos.y },
    };
    assert(next == displaced(head_pos, direction));
    if !in_bounds(next) {
        return None;
    }
    let mut i: usize = 0;
    while i < segments.len()
        invariant
            0 <= i <= segments@.len(),
            next == displaced(head_pos, direction),
            pos_in_bounds(next),
            forall|j: int| 0 <= j < i ==> segments@[j] != next,
        decreases segments@.len() - i,
    {
        if segments[i] == next {
            assert(segments@[i as int] == next);
            assert(segments@.contains(next));
            return None;
        }
        i += 1;
    }
    assert(!segments@.contains(next));
    Some(next)
}

/// The snake: head cell, committed direction, pending input
/// direction, the ordered body cells behind the head (head to tail),
/// and the cell most recently vacated by the tail.
pub struct Snake {
    pub head: Position,
    pub direction: Direction,
    pub input_direction: Option<Direction>,
    pub body: Vec<Position>,
    pub last_tail: Position,
}

impl Snake {
    /// Every cell the snake occupies, head first, then the body from
    /// front to tail.
    pub open spec fn occupied(self) -> Seq<Position> {
        seq![self.head] + self.body@
    }

    /// Well-formed snake: every occupied cell is inside the arena, no
    /// cell is occupied twice, and the pending input is never the
    /// reverse of the committed direction.
    pub open spec fn wf(self) -> bool {
        &&& pos_in_bounds(self.head)
        &&& forall|i: int| 0 <= i < self.body@.len() ==> pos_in_bounds(#[trigger] self.body@[i])
        &&& all_distinct(self.occupied())
        &&& match self.input_direction {
            Some(d) => d != self.direction.opposite_spec(),
            None => true,
        }
    }

    /// The direction the next movement tick will use: the pending
    /// input when one exists, the committed direction otherwise.
    pub open spec fn committed_direction(self) -> Direction {
        match self.input_direction {
            Some(d) => d,
            None => self.direction,
        }
    }

    /// The body after a rigid shift: the front segment adopts the
    /// head's old cell, every other segment the cell of the segment
    /// ahead of it.  Length is unchanged.
    pub open spec fn shifted_body(self) -> Seq<Position> {
        (seq![self.head] + self.body@).take(self.body@.len() as int)
    }

    /// The cell the tail frees during a shift: the last body cell, or
    /// the head's old cell when the body is empty.
    pub open spec fn vacated_tail(self) -> Position {
        if self.body@.len() > 0 {
            self.body@.last()
        } else {
            self.head
        }
    }
}

/// How a successful movement tick changes the snake: the pending input
/// (when present) becomes the committed direction, the head moves one
/// cell that way, the body shifts rigidly, and the freed tail cell is
/// recorded.  The pending input itself is retained.
pub open spec fn advance_rel(pre: Snake, post: Snake) -> bool {
    &&& post.head == displaced(pre.head, pre.committed_direction())
    &&& post.direction == pre.committed_direction()
    &&& post.input_direction == pre.input_direction
    &&& post.body@ == pre.shifted_body()
    &&& post.last_tail == pre.vacated_tail()
}

/// No direction is its own opposite.
pub proof fn lemma_no_self_opposite(d: Direction)
    ensures
        d != d.opposite_spec(),
{
}

/// A unit displacement never leaves a position on its own cell.
pub proof fn lemma_displaced_moves(p: Position, d: Direction)
    requires
        pos_in_bounds(p),
    ensures
        displaced(p, d) != p,
{
}

impl Snake {
    /// Record a sampled input direction, unless it is the exact
    /// reverse of the committed direction, which is ignored: the
    /// pending input, and with it the direction the next tick commits,
    /// then stay exactly as they were.
    pub fn apply_input_direction(&mut self, dir: Option<Direction>)
        requires
            old(self).wf(),
        ensures
            final(self).wf(),
            final(self).head == old(self).head,
            final(self).direction == old(self).direction,
            final(self).body@ == old(self).body@,
            final(self).last_tail == old(self).last_tail,
            match dir {
                Some(d) => if d == old(self).direction.opposite_spec() {
                    final(self).input_direction == old(self).input_direction
                    && final(self).committed_direction() == old(self).committed_direction()
                } else {
                    final(self).input_direction == Some(d)
                },
                None => final(self).input_direction == old(self).input_direction,
            },
    {
        if let Some(d) = dir {
            if !(d == self.direction.opposite()) {
                self.input_direction = Some(d);
            }
        }
    }

    /// Append one body segment at `pos`.
    pub fn spawn_segment(&mut self, pos: Position)
        ensures
            final(self).head == old(self).head,
            final(self).direction == old(self).direction,
            final(self).input_direction == old(self).input_direction,
            final(self).last_tail == old(self).last_tail,
            final(self).body@ == old(self).body@.push(pos),
    {
        self.body.push(pos);
    }

    /// One movement tick.  Commits the pending input direction, then
    /// either moves (head one cell onward, body shifted rigidly, freed
    /// tail cell recorded) and returns `true`, or detects a collision
    /// with a wall or a body cell, leaves every position unchanged,
    /// and returns `false`.
    pub fn advance(&mut self) -> (moved: bool)
        requires
            old(self).wf(),
        ensures
            final(self).wf(),
            moved == (next_head_spec(
                old(self).head,
                old(self).committed_direction(),
                old(self).body@,
            ) is Some),
            moved ==> advance_rel(*old(self), *final(self)),
            moved ==> final(self).body@.len() == old(self).body@.len(),
            moved ==> pos_in_bounds(final(self).last_tail)
                && !final(self).occupied().contains(final(self).last_tail),
            !moved ==> final(self).head == old(self).head
                && final(self).body@ == old(self).body@
                && final(self).last_tail == old(self).last_tail
                && final(self).direction == old(self).committed_direction()
                && final(self).input_direction == old(self).input_direction,
    {
        let ghost pre = *self;
        if let Some(d) = self.input_direction {
            self.direction = d;
            proof {
                lemma_no_self_opposite(d);
            }
        }
        let next_opt = get_next_head_pos(self.head, self.direction, &self.body);
        let next = match next_opt {
            None => {
                return false;
            },
            Some(q) => q,
        };
        let ghost old_head = self.head;
        let ghost old_body = self.body@;
        let ghost old_occ = self.occupied();
        let mut front: Position = self.head;
        let mut i: usize = 0;
        while i < self.body.len()
            invariant
                0 <= i <= old_body.len(),
                self.body@.len() == old_body.len(),
                self.head == old_head,
                old_head == pre.head,
                old_body == pre.body@,
                self.direction == pre.committed_direction(),
                self.input_direction == pre.input_direction,
                pre.wf(),
                next == displaced(pre.head, pre.committed_direction()),
                pos_in_bounds(next),
                !pre.body@.contains(next),
                forall|j: int| 0 <= j < i ==> self.body@[j] == (seq![old_head] + old_body)[j],
                forall|j: int| i <= j < old_body.len() ==> self.body@[j] == old_body[j],
                front == (seq![old_head] + old_body)[i as int],
            decreases old_body.len() - i,
        {
            let tmp = self.body[i];
            self.body.set(i, front);
            front = tmp;
            i += 1;
        }
        self.last_tail = front;
        self.head = next;
        proof {
            let shifted = (seq![old_head] + old_body).take(old_body.len() as int);
            assert(self.body@ =~= shifted);
            assert(forall|j: int| 0 <= j < old_body.len()
                ==> #[trigger] shifted[j] == old_occ[j]);
            assert(!old_body.contains(next));
            assert forall|j: int| 0 <= j < old_body.len() implies old_body[j] != next by {
                if old_body[j] == next {
                    assert(old_body.contains(next));
                }
            }
            lemma_displaced_moves(old_head, self.direction);
            assert(next != old_head);
            assert(forall|j: int| 0 <= j < old_occ.len() ==> #[trigger] old_occ[j] != next);
            let occ = self.occupied();
            assert(occ =~= seq![next] + shifted);
            assert forall|a: int, b: int| 0 <= a < b < occ.len() implies occ[a] != occ[b] by {
                if a == 0 {
                    assert(occ[b] == old_occ[b - 1]);
                } else {
                    assert(occ[a] == old_occ[a - 1]);
                    assert(occ[b] == old_occ[b - 1]);
                }
            }
            assert(all_distinct(occ));
            assert forall|j: int| 0 <= j < self.body@.len()
                implies pos_in_bounds(#[trigger] self.body@[j]) by {
                assert(self.body@[j] == old_occ[j]);
            }
            assert(self.last_tail == old_occ[old_body.len() as int]);
            assert forall|j: int| 0 <= j < occ.len() implies #[trigger] occ[j] != self.last_tail by {
                if j == 0 {
                    if old_body.len() > 0 {
                        assert(self.last_tail == old_body[old_body.len() - 1]);
                        assert(old_body[old_body.len() - 1] != next);
                    }
                } else {
                    assert(occ[j] == old_occ[j - 1]);
                }
            }
            assert(!occ.contains(self.last_tail));
        }
        true
    }
}

/// The eating check after a movement tick.  When the head stands on
/// the food cell the food is consumed and one segment is appended on
/// the cell the tail freed this tick; otherwise nothing changes.
pub fn snake_eating_and_growth(snake: &mut Snake, food: &mut Option<Position>) -> (grew: bool)
    requires
        old(snake).wf(),
        *old(food) == Some(old(snake).head) ==> pos_in_bounds(old(snake).last_tail)
            && !old(snake).occupied().contains(old(snake).last_tail),
    ensures
        final(snake).wf(),
        grew == (*old(food) == Some(old(snake).head)),
        grew ==> final(snake).body@ == old(snake).body@.push(old(snake).last_tail)
            && *final(food) == None::<Position>,
        !grew ==> final(snake).body@ == old(snake).body@ && *final(food) == *old(food),
        final(snake).head == old(snake).head,
        final(snake).direction == old(snake).direction,
        final(snake).input_direction == old(snake).input_direction,
        final(snake).last_tail == old(snake).last_tail,
{
    let ate = match *food {
        Some(f) => f == snake.head,
        None => false,
    };
    if ate {
        *food = None;
        let t = snake.last_tail;
        let ghost old_occ = snake.occupied();
        snake.spawn_segment(t);
        proof {
            let occ = snake.occupied();
            assert(occ =~= old_occ.push(t));
            assert forall|a: int, b: int| 0 <= a < b < occ.len() implies occ[a] != occ[b] by {
                if b == occ.len() - 1 {
                    assert(occ[a] == old_occ[a]);
                    assert(old_occ.contains(old_occ[a]));
                } else {
                    assert(occ[a] == old_occ[a]);
                    assert(occ[b] == old_occ[b]);
                }
            }
            assert(all_distinct(occ));
            assert forall|j: int| 0 <= j < snake.body@.len()
                implies pos_in_bounds(#[trigger] snake.body@[j]) by {
                if j < snake.body@.len() - 1 {
                    assert(snake.body@[j] == old(snake).body@[j]);
                }
            }
        }
        true
    } else {
        false
    }
}

/// A fresh snake in the fixed starting configuration: head at (3, 3)
/// facing `Up`, one body segment at (3, 2), no pending input, and
/// (3, 2) as the recorded tail cell.
pub fn spawn_snake() -> (s: Snake)
    ensures
        s.wf(),
        s.head == (Position { x: 3, y: 3 }),
        s.direction == Direction::Up,
        s.input_direction is None,
        s.body@ == seq![Position { x: 3, y: 2 }],
        s.last_tail == (Position { x: 3, y: 2 }),
        start_config(s),
{
    let tail_pos = Position { x: 3, y: 2 };
    let mut body: Vec<Position> = Vec::new();
    body.push(tail_pos);
    let s = Snake {
        head: Position { x: 3, y: 3 },
        direction: Direction::Up,
        input_direction: None,
        body,
        last_tail: tail_pos,
    };
    proof {
        assert(s.body@ =~= seq![Position { x: 3, y: 2 }]);
    }
    s
}

/// The fixed starting configuration: head at (3, 3) facing `Up`, one
/// body segment at (3, 2), no pending input, tail cell (3, 2).
pub open spec fn start_config(s: Snake) -> bool {
    &&& s.head == (Position { x: 3, y: 3 })
    &&& s.direction == Direction::Up
    &&& s.input_direction is None
    &&& s.body@ == seq![Position { x: 3, y: 2 }]
    &&& s.last_tail == (Position { x: 3, y: 2 })
}

/// Law: a successful movement tick keeps the body length, and an
/// eating step right after it grows the body by exactly one segment,
/// which stands on the cell the tail vacated in that tick's shift.
pub proof fn lemma_growth_by_one(pre: Snake, mid: Snake, post: Snake, food: Option<Position>)
    requires
        advance_rel(pre, mid),
        food == Some(mid.head),
        post.body@ == mid.body@.push(mid.last_tail),
    ensures
        mid.body@.len() == pre.body@.len(),
        post.body@.len() == pre.body@.len() + 1,
        post.body@.last() == pre.vacated_tail(),
{
}

/// Law: for a position strictly inside the arena and any direction,
/// the next head cell over an empty occupied set is exactly the unit
/// displacement.
pub proof fn lemma_next_head_inside(p: Position, d: Direction)
    requires
        0 < p.x < ARENA_WIDTH - 1,
        0 < p.y < ARENA_HEIGHT - 1,
    ensures
        next_head_spec(p, d, Seq::<Position>::empty()) == Some(displaced(p, d)),
{
    assert(!Seq::<Position>::empty().contains(displaced(p, d)));
}

/// Law: a move whose displaced cell leaves the arena — a boundary
/// position with a direction pointing outward — signals a collision,
/// whatever cells are occupied.
pub proof fn lemma_next_head_boundary(p: Position, d: Direction, occupied: Seq<Position>)
    requires
        !pos_in_bounds(displaced(p, d)),
    ensures
        next_head_spec(p, d, occupied) is None,
{
}

/// Law: when the occupied set holds the displaced cell, the move
/// signals a collision even when that cell is inside the arena.
pub proof fn lemma_next_head_occupied(p: Position, d: Direction, occupied: Seq<Position>)
    requires
        occupied.contains(displaced(p, d)),
    ensures
        next_head_spec(p, d, occupied) is None,
{
}

} // verus!
