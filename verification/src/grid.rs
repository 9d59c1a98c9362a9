//! Geometry of the playing field: cells, the bounds check, and the four
//! movement directions.

use vstd::prelude::*;

verus! {

/// Number of cells along the x axis of the playing field.
pub const GRID_WIDTH: i16 = 31;

/// Number of cells along the y axis of the playing field.
pub const GRID_HEIGHT: i16 = 18;

/// A cell of the playing field, addressed by column `x` and row `y`.
#[derive(Debug, PartialEq, Eq, Structural, Clone, Copy)]
pub struct Coordinate {
    pub x: i16,
    pub y: i16,
}

/// True iff `c` lies on the playing field.
pub open spec fn in_bounds(c: Coordinate) -> bool {
    0 <= c.x < GRID_WIDTH && 0 <= c.y < GRID_HEIGHT
}

impl Coordinate {
    pub fn new(x: i16, y: i16) -> (c: Coordinate)
        ensures
            c == (Coordinate { x, y }),
    {
        Coordinate { x, y }
    }

    /// True iff the cell lies off the playing field on some axis.
    pub fn out_of_bounds(&self) -> (r: bool)
        ensures
            r == !in_bounds(*self),
    {
        self.x >= GRID_WIDTH || self.y >= GRID_HEIGHT || self.x < 0 || self.y < 0
    }
}

/// One of the four directions the snake can head in.
#[derive(Debug, PartialEq, Eq, Structural, Clone, Copy)]
pub enum Direction {
    Left,
    Right,
    Up,
    Down,
}

impl Direction {
    /// The opposite direction.
    pub open spec fn spec_inverse(self) -> Direction {
        match self {
            Direction::Up => Direction::Down,
            Direction::Down => Direction::Up,
            Direction::Left => Direction::Right,
            Direction::Right => Direction::Left,
        }
    }

    pub fn inverse(&self) -> (r: Direction)
        ensures
            r == self.spec_inverse(),
    {
        match self {
            Direction::Up => Direction::Down,
            Direction::Down => Direction::Up,
            Direction::Left => Direction::Right,
            Direction::Right => Direction::Left,
        }
    }
}

/// The cell one step from `c` in direction `d`.
pub open spec fn moved(c: Coordinate, d: Direction) -> Coordinate {
    match d {
        Direction::Up => Coordinate { x: c.x, y: (c.y - 1) as i16 },
        Direction::Down => Coordinate { x: c.x, y: (c.y + 1) as i16 },
        Direction::Left => Coordinate { x: (c.x - 1) as i16, y: c.y },
        Direction::Right => Coordinate { x: (c.x + 1) as i16, y: c.y },
    }
}

/// Reversing a direction twice yields the original direction, and no
/// direction is its own reverse.
pub proof fn lemma_inverse_involution(d: Direction)
    ensures
        d.spec_inverse().spec_inverse() == d,
        d.spec_inverse() != d,
{
}

} // verus!
