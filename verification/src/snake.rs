//! The snake entity: an ordered body of grid cells, a committed heading and
//! a pending one, an alive flag, a score and a display color.
//!
//! The central invariant is `wf`: the body never falls under its initial
//! length, and the pending heading is never the reverse of the committed
//! one, so a snake can never be turned back into its own neck.

use vstd::prelude::*;

use crate::geometry::Direction;
use crate::geometry::Point;
use crate::geometry::step_spec;

verus! {

/// Number of cells a snake starts with.
pub const INITIAL_SNAKE_LENGTH: usize = 3;

/// Points awarded for each growth step.
pub const GROWTH_SCORE: u32 = 10;

pub struct Snake {
    /// Head first; insertion order is body order.
    pub body: Vec<Point>,
    /// Heading committed at the last forward move.
    pub direction: Direction,
    /// Heading requested since the last tick, applied at the next move.
    pub next_direction: Direction,
    pub alive: bool,
    pub score: u32,
    pub color: String,
}

/// The cell `i` steps behind `start`, against travel direction `d`:
/// the freshly built body trails away from where the snake is headed.
pub open spec fn trail_cell(start: Point, d: Direction, i: int) -> Point {
    match d {
        Direction::Up => Point { x: start.x, y: (start.y + i) as i32 },
        Direction::Down => Point { x: start.x, y: (start.y - i) as i32 },
        Direction::Left => Point { x: (start.x + i) as i32, y: start.y },
        Direction::Right => Point { x: (start.x - i) as i32, y: start.y },
    }
}

/// The body after one forward move in direction `d`: the stepped head is
/// prepended and the old tail cell dropped, so the whole body translates
/// by one cell along its own track.
pub open spec fn moved_body(b: Seq<Point>, d: Direction) -> Seq<Point> {
    seq![step_spec(b[0], d)] + b.drop_last()
}

impl Snake {
    /// Structural soundness: never shorter than at creation, and the
    /// pending heading is never an instant reversal.
    pub open spec fn wf(self) -> bool {
        &&& self.body@.len() >= INITIAL_SNAKE_LENGTH
        &&& self.next_direction != self.direction.opposite_spec()
    }

    /// Builds a snake whose head is `start` and whose remaining cells trail
    /// behind it, against `direction`. Spawn points are precomputed per
    /// player slot, so keeping every cell on the grid is the caller's
    /// business; the margins here only keep the trail arithmetic in `i32`.
    pub fn new(start: Point, direction: Direction, color: String) -> (s: Snake)
        requires
            i32::MIN + 4 < start.x < i32::MAX - 4,
            i32::MIN + 4 < start.y < i32::MAX - 4,
        ensures
            s.wf(),
            s.body@.len() == INITIAL_SNAKE_LENGTH,
            forall|i: int|
                0 <= i < INITIAL_SNAKE_LENGTH ==> s.body@[i] == trail_cell(start, direction, i),
            s.direction == direction,
            s.next_direction == direction,
            s.alive,
            s.score == 0,
            s.color == color,
    {
        let mut body: Vec<Point> = Vec::new();
        body.push(start);
        let mut i: usize = 1;
        while i < INITIAL_SNAKE_LENGTH
            invariant
                1 <= i <= INITIAL_SNAKE_LENGTH,
                body@.len() == i,
                i32::MIN + 4 < start.x < i32::MAX - 4,
                i32::MIN + 4 < start.y < i32::MAX - 4,
                forall|j: int| 0 <= j < i ==> body@[j] == trail_cell(start, direction, j),
            decreases INITIAL_SNAKE_LENGTH - i,
        {
            let cell = match direction {
                Direction::Up => Point { x: start.x, y: start.y + i as i32 },
                Direction::Down => Point { x: start.x, y: start.y - i as i32 },
                Direction::Left => Point { x: start.x + i as i32, y: start.y },
                Direction::Right => Point { x: start.x - i as i32, y: start.y },
            };
            body.push(cell);
            i = i + 1;
        }
        proof {
            crate::geometry::lemma_opposite_no_fixed_point(direction);
        }
        Snake { body, direction, next_direction: direction, alive: true, score: 0, color }
    }

    /// The cell the snake's head occupies.
    pub fn head(&self) -> (r: &Point)
        requires
            self.body@.len() >= 1,
        ensures
            *r == self.body@[0],
    {
        &self.body[0]
    }

    /// Requests a new heading for the next tick. A request for the exact
    /// reverse of the committed heading is silently ignored: this is the
    /// rule that makes an instant 180° self-kill impossible, for human and
    /// bot input alike, since both arrive through this single entry point.
    pub fn set_direction(&mut self, dir: Direction)
        ensures
            final(self).next_direction == if dir == old(self).direction.opposite_spec() {
                old(self).next_direction
            } else {
                dir
            },
            final(self).body == old(self).body,
            final(self).direction == old(self).direction,
            final(self).alive == old(self).alive,
            final(self).score == old(self).score,
            final(self).color == old(self).color,
            old(self).wf() ==> final(self).wf(),
            old(self).wf() ==> final(self).next_direction
                != final(self).direction.opposite_spec(),
    {
        if !(dir == self.direction.opposite()) {
            self.next_direction = dir;
        }
    }

    /// Commits the pending heading and translates the body one cell along
    /// it: the stepped head is prepended and the tail cell dropped, so the
    /// length is unchanged and every other cell takes its predecessor's
    /// place. Growth works by having `grow` duplicate the tail beforehand,
    /// which this move then consumes.
    pub fn move_forward(&mut self)
        requires
            old(self).body@.len() >= 1,
            i32::MIN < old(self).body@[0].x < i32::MAX,
            i32::MIN < old(self).body@[0].y < i32::MAX,
        ensures
            final(self).direction == old(self).next_direction,
            final(self).next_direction == old(self).next_direction,
            final(self).body@.len() == old(self).body@.len(),
            final(self).body@ == moved_body(old(self).body@, old(self).next_direction),
            final(self).body@[0] == step_spec(old(self).body@[0], old(self).next_direction),
            forall|i: int|
                1 <= i < final(self).body@.len() ==> final(self).body@[i] == old(
                    self,
                ).body@[i - 1],
            final(self).alive == old(self).alive,
            final(self).score == old(self).score,
            final(self).color == old(self).color,
            old(self).wf() ==> final(self).wf(),
    {
        self.direction = self.next_direction;
        let head = *self.head();
        let new_head = crate::geometry::step(head, self.direction);
        self.body.insert(0, new_head);
        self.body.pop();
        proof {
            assert(self.body@ =~= moved_body(old(self).body@, old(self).next_direction));
            crate::geometry::lemma_opposite_no_fixed_point(old(self).next_direction);
        }
    }

    /// Duplicates the tail cell — the duplicate is consumed by the next
    /// forward move, leaving the body one cell longer — and adds the fixed
    /// score increment.
    pub fn grow(&mut self)
        requires
            old(self).body@.len() >= 1,
            old(self).body@.len() < usize::MAX,
            old(self).score + GROWTH_SCORE <= u32::MAX,
        ensures
            final(self).body@ == old(self).body@.push(old(self).body@.last()),
            final(self).body@.len() == old(self).body@.len() + 1,
            final(self).score == old(self).score + GROWTH_SCORE,
            final(self).direction == old(self).direction,
            final(self).next_direction == old(self).next_direction,
            final(self).alive == old(self).alive,
            final(self).color == old(self).color,
            old(self).wf() ==> final(self).wf(),
    {
        let tail = self.body[self.body.len() - 1];
        self.body.push(tail);
        self.score = self.score + GROWTH_SCORE;
    }
}

/// The anti-reversal law: whatever direction is requested of a well-formed
/// snake, the pending heading after the request is never the reverse of the
/// committed heading — the request is either applied (and is not a
/// reversal) or ignored (and the previous pending heading already obeyed
/// the rule).
pub proof fn lemma_set_direction_never_reverses(s: Snake, dir: Direction)
    requires
        s.wf(),
    ensures
        ({
            let applied = if dir == s.direction.opposite_spec() {
                s.next_direction
            } else {
                dir
            };
            applied != s.direction.opposite_spec()
        }),
{
}

/// After the next forward move the committed heading is the pending one,
/// so a well-formed snake also never *travels* back into its own neck:
/// the new head cell differs from the old neck cell.
pub proof fn lemma_move_never_backtracks(s: Snake)
    requires
        s.wf(),
        i32::MIN < s.body@[0].x < i32::MAX,
        i32::MIN < s.body@[0].y < i32::MAX,
        s.body@[1] == step_spec(s.body@[0], s.direction.opposite_spec()),
    ensures
        moved_body(s.body@, s.next_direction)[0] != s.body@[1],
{
    crate::geometry::lemma_opposite_no_fixed_point(s.direction);
}

} // verus!
