//! Grid geometry primitives: integer positions on a bounded rectangular
//! grid and the four travel directions.

use vstd::prelude::*;

verus! {

/// A cell of the grid. Plain value type: two snakes may occupy equal points.
#[derive(Clone, Copy, Debug, PartialEq, Eq, Structural, Hash)]
pub struct Point {
    pub x: i32,
    pub y: i32,
}

/// A heading of travel. `opposite` is a total involution with no fixed point,
/// which is what makes the anti-reversal rule meaningful.
#[derive(Clone, Copy, Debug, PartialEq, Eq, Structural, Hash)]
pub enum Direction {
    Up,
    Down,
    Left,
    Right,
}

impl Direction {
    /// The reverse heading.
    pub fn opposite(&self) -> (r: Direction)
        ensures
            r == self.opposite_spec(),
    {
        match self {
            Direction::Up => Direction::Down,
            Direction::Down => Direction::Up,
            Direction::Left => Direction::Right,
            Direction::Right => Direction::Left,
        }
    }

    pub open spec fn opposite_spec(self) -> Direction {
        match self {
            Direction::Up => Direction::Down,
            Direction::Down => Direction::Up,
            Direction::Left => Direction::Right,
            Direction::Right => Direction::Left,
        }
    }
}

/// Reversing twice returns the original heading, for every direction.
pub proof fn lemma_opposite_involutive(d: Direction)
    ensures
        d.opposite_spec().opposite_spec() == d,
{
}

/// No heading is its own reverse.
pub proof fn lemma_opposite_no_fixed_point(d: Direction)
    ensures
        d.opposite_spec() != d,
{
}

/// The cell one unit step away from `p` in direction `d`.
///
/// Stated over mathematical integers; executable code that steps a point
/// first establishes that the result stays within `i32`.
pub open spec fn step_x(p: Point, d: Direction) -> int {
    match d {
        Direction::Up => p.x as int,
        Direction::Down => p.x as int,
        Direction::Left => p.x - 1,
        Direction::Right => p.x + 1,
    }
}

pub open spec fn step_y(p: Point, d: Direction) -> int {
    match d {
        Direction::Up => p.y - 1,
        Direction::Down => p.y + 1,
        Direction::Left => p.y as int,
        Direction::Right => p.y as int,
    }
}

pub open spec fn step_spec(p: Point, d: Direction) -> Point {
    Point { x: step_x(p, d) as i32, y: step_y(p, d) as i32 }
}

/// Whether `p` lies on the grid at all (walls included).
pub open spec fn in_bounds(p: Point, width: i32, height: i32) -> bool {
    0 <= p.x < width && 0 <= p.y < height
}

/// Whether the integer pair lies strictly inside the border ring of the
/// grid; food and power-ups only ever spawn in this inner region, and the
/// bots treat the border as lethal.
pub open spec fn strictly_inside(x: int, y: int, width: i32, height: i32) -> bool {
    0 < x < width - 1 && 0 < y < height - 1
}

/// Where a head that left the grid reappears when its owner holds a Ghost
/// effect: each coordinate that ran off one edge restarts at the other.
pub open spec fn wrap_spec(p: Point, width: i32, height: i32) -> Point {
    Point {
        x: if p.x < 0 { (width - 1) as i32 } else if p.x >= width { 0 } else { p.x },
        y: if p.y < 0 { (height - 1) as i32 } else if p.y >= height { 0 } else { p.y },
    }
}

/// Grid distance along the axes between two cells, over integers.
pub open spec fn manhattan(ax: int, ay: int, bx: int, by: int) -> int {
    abs_int(ax - bx) + abs_int(ay - by)
}

pub open spec fn abs_int(v: int) -> int {
    if v < 0 {
        -v
    } else {
        v
    }
}

/// One unit step, executable. The caller keeps coordinates far enough from
/// the `i32` limits; inside a room every stepped head starts on the grid.
pub fn step(p: Point, d: Direction) -> (r: Point)
    requires
        i32::MIN < p.x < i32::MAX,
        i32::MIN < p.y < i32::MAX,
    ensures
        r == step_spec(p, d),
{
    match d {
        Direction::Up => Point { x: p.x, y: p.y - 1 },
        Direction::Down => Point { x: p.x, y: p.y + 1 },
        Direction::Left => Point { x: p.x - 1, y: p.y },
        Direction::Right => Point { x: p.x + 1, y: p.y },
    }
}

} // verus!
