//! The food pellet: spawned at a fixed cell, relocated when eaten to a cell
//! that no tail segment occupies.

use vstd::prelude::*;

use std::collections::VecDeque;

use rand::Rng;

use crate::grid::{in_bounds, Coordinate, GRID_HEIGHT, GRID_WIDTH};
use crate::snake::{occupied, TailPart};

verus! {

/// Column of the cell where the food first spawns.
pub const FOOD_START_X: i16 = 20;

/// Row of the cell where the food first spawns.
pub const FOOD_START_Y: i16 = 10;

/// Number of random cells tried before falling back to a deterministic scan
/// for a free cell.
pub const MAX_SAMPLE_ATTEMPTS: u16 = 100;

/// The single food pellet on the field.
pub struct Food {
    pub coordinate: Coordinate,
}

/// Relies on `rand::thread_rng` and `rand::Rng::gen_range`: sampling `0..n`
/// yields a value of that range and panics only when the range is empty.
#[verifier::external_body]
fn random_below(n: i16) -> (r: i16)
    requires
        0 < n,
    ensures
        0 <= r < n,
{
    rand::thread_rng().gen_range(0..n)
}

/// True iff some segment of `tail` lies on cell `c`.
pub fn tail_occupies(tail: &VecDeque<TailPart>, c: Coordinate) -> (r: bool)
    ensures
        r == occupied(tail@, c),
{
    let mut i: usize = 0;
    while i < tail.len()
        invariant
            0 <= i <= tail@.len(),
            forall|j: int| 0 <= j < i ==> tail@[j].coordinate != c,
        decreases tail@.len() - i,
    {
        if tail[i].coordinate == c {
            return true;
        }
        i = i + 1;
    }
    false
}

impl Food {
    pub fn new() -> (f: Food)
        ensures
            f.coordinate == (Coordinate { x: FOOD_START_X, y: FOOD_START_Y }),
    {
        Food { coordinate: Coordinate::new(FOOD_START_X, FOOD_START_Y) }
    }

    /// Moves the food to a cell free of `tail`: random cells are tried
    /// first, and if all attempts land on the tail, the field is scanned for
    /// its first free cell, so the search always ends. Only when the tail
    /// covers the whole field does the food stay where it was.
    pub fn new_location(&mut self, tail: &VecDeque<TailPart>)
        ensures
            (exists|c: Coordinate| in_bounds(c) && !occupied(tail@, c)) ==> in_bounds(
                final(self).coordinate,
            ) && !occupied(tail@, final(self).coordinate),
            !(exists|c: Coordinate| in_bounds(c) && !occupied(tail@, c)) ==> final(self).coordinate
                == old(self).coordinate,
    {
        let mut attempts: u16 = 0;
        while attempts < MAX_SAMPLE_ATTEMPTS
            invariant
                self.coordinate == old(self).coordinate,
            decreases MAX_SAMPLE_ATTEMPTS - attempts,
        {
            let candidate = Coordinate::new(random_below(GRID_WIDTH), random_below(GRID_HEIGHT));
            if !tail_occupies(tail, candidate) {
                proof {
                    assert(in_bounds(candidate) && !occupied(tail@, candidate));
                }
                self.coordinate = candidate;
                return;
            }
            attempts = attempts + 1;
        }
        let mut x: i16 = 0;
        while x < GRID_WIDTH
            invariant
                0 <= x <= GRID_WIDTH,
                self.coordinate == old(self).coordinate,
                forall|c: Coordinate| in_bounds(c) && c.x < x ==> occupied(tail@, c),
            decreases GRID_WIDTH - x,
        {
            let mut y: i16 = 0;
            while y < GRID_HEIGHT
                invariant
                    0 <= x < GRID_WIDTH,
                    0 <= y <= GRID_HEIGHT,
                    self.coordinate == old(self).coordinate,
                    forall|c: Coordinate| in_bounds(c) && c.x < x ==> occupied(tail@, c),
                    forall|c: Coordinate|
                        in_bounds(c) && c.x == x && c.y < y ==> occupied(tail@, c),
                decreases GRID_HEIGHT - y,
            {
                let candidate = Coordinate::new(x, y);
                if !tail_occupies(tail, candidate) {
                    proof {
                        assert(in_bounds(candidate) && !occupied(tail@, candidate));
                    }
                    self.coordinate = candidate;
                    return;
                }
                y = y + 1;
            }
            x = x + 1;
        }
    }
}

} // verus!
