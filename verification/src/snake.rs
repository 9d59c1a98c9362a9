//! The snake: head cell, ordered tail segments (oldest first, the newest
//! directly under the head), current direction, and the two-slot buffer of
//! requested turns.

use vstd::prelude::*;

use std::collections::VecDeque;

use crate::grid::{moved, Coordinate, Direction};

verus! {

/// Column of the cell where the snake's head spawns.
pub const START_X: i16 = 10;

/// Row of the cell where the snake's head spawns.
pub const START_Y: i16 = 10;

/// Number of tail segments a freshly spawned snake has.
pub const INITIAL_TAIL_LEN: usize = 4;

/// One trailing body cell of the snake.
#[derive(Debug, Clone)]
pub struct TailPart {
    pub coordinate: Coordinate,
}

impl TailPart {
    pub fn new(x: i16, y: i16) -> (t: TailPart)
        ensures
            t.coordinate == (Coordinate { x, y }),
    {
        TailPart { coordinate: Coordinate::new(x, y) }
    }
}

/// True iff some segment of `tail` lies on cell `c`.
pub open spec fn occupied(tail: Seq<TailPart>, c: Coordinate) -> bool {
    exists|i: int| 0 <= i < tail.len() && tail[i].coordinate == c
}

/// Head cell, tail segments ordered oldest to newest, current heading, and
/// up to two buffered turn requests (a second key press within one tick is
/// kept rather than dropped).
pub struct Snake {
    pub coordinate: Coordinate,
    pub tail: VecDeque<TailPart>,
    pub direction: Direction,
    pub new_direction: Option<Direction>,
    pub queued_direction: Option<Direction>,
}

/// The snake as freshly spawned: head at the starting cell heading right,
/// four tail segments stretching left of the head with the newest under the
/// head, and no buffered turn requests.
pub open spec fn is_initial_snake(s: Snake) -> bool {
    &&& s.coordinate == (Coordinate { x: START_X, y: START_Y })
    &&& s.direction == Direction::Right
    &&& s.new_direction is None
    &&& s.queued_direction is None
    &&& s.tail@.len() == INITIAL_TAIL_LEN
    &&& forall|i: int|
        0 <= i < INITIAL_TAIL_LEN ==> s.tail@[i].coordinate == (Coordinate {
            x: (START_X - (INITIAL_TAIL_LEN - 1) + i) as i16,
            y: START_Y,
        })
}

/// The snake after the per-tick turn step: a pending request is adopted
/// exactly when it is not the reverse of the current heading and its slot is
/// cleared either way; with no pending request a queued one is promoted
/// under the same rule.
pub open spec fn turned(s: Snake) -> Snake {
    match s.new_direction {
        Some(r) => Snake {
            direction: if r != s.direction.spec_inverse() {
                r
            } else {
                s.direction
            },
            new_direction: None,
            ..s
        },
        None => match s.queued_direction {
            Some(r) => Snake {
                direction: if r != s.direction.spec_inverse() {
                    r
                } else {
                    s.direction
                },
                queued_direction: None,
                ..s
            },
            None => s,
        },
    }
}

impl Snake {
    pub fn new() -> (s: Snake)
        ensures
            is_initial_snake(s),
    {
        let starting_direction = Direction::Right;
        let starting_coordinate = Coordinate::new(START_X, START_Y);
        Snake {
            coordinate: starting_coordinate,
            tail: Snake::init_tail(starting_coordinate),
            direction: starting_direction,
            new_direction: None,
            queued_direction: None,
        }
    }

    /// A straight tail of four segments ending under the given head cell and
    /// stretching left of it, oldest segment first.
    pub fn init_tail(starting_coordinate: Coordinate) -> (tail: VecDeque<TailPart>)
        requires
            starting_coordinate.x >= i16::MIN + 4,
        ensures
            tail@.len() == INITIAL_TAIL_LEN,
            forall|i: int|
                0 <= i < INITIAL_TAIL_LEN ==> tail@[i].coordinate == (Coordinate {
                    x: (starting_coordinate.x - (INITIAL_TAIL_LEN - 1) + i) as i16,
                    y: starting_coordinate.y,
                }),
    {
        let mut tail: VecDeque<TailPart> = VecDeque::new();
        let mut i: i16 = 0;
        while i < 4
            invariant
                0 <= i <= 4,
                starting_coordinate.x >= i16::MIN + 4,
                tail@.len() == i,
                forall|j: int|
                    0 <= j < i ==> tail@[j].coordinate == (Coordinate {
                        x: (starting_coordinate.x - (i - 1) + j) as i16,
                        y: starting_coordinate.y,
                    }),
            decreases 4 - i,
        {
            tail.push_front(TailPart {
                coordinate: Coordinate::new(starting_coordinate.x - i, starting_coordinate.y),
            });
            i = i + 1;
        }
        tail
    }

    /// Buffers a requested heading: into the pending slot if it is empty,
    /// else into the queued slot (overwriting any older queued request).
    pub fn set_new_direction(&mut self, direction: Direction)
        ensures
            old(self).new_direction is None ==> final(self).new_direction == Some(direction)
                && final(self).queued_direction == old(self).queued_direction,
            old(self).new_direction is Some ==> final(self).queued_direction == Some(direction)
                && final(self).new_direction == old(self).new_direction,
            final(self).coordinate == old(self).coordinate,
            final(self).direction == old(self).direction,
            final(self).tail == old(self).tail,
    {
        if self.new_direction.is_none() {
            self.new_direction = Some(direction);
        } else {
            self.queued_direction = Some(direction);
        }
    }

    /// Moves the head one cell in the current heading; bounds and collisions
    /// are the round controller's business, checked after this step.
    pub fn update(&mut self)
        requires
            i16::MIN < old(self).coordinate.x < i16::MAX,
            i16::MIN < old(self).coordinate.y < i16::MAX,
        ensures
            final(self).coordinate == moved(old(self).coordinate, old(self).direction),
            final(self).tail == old(self).tail,
            final(self).direction == old(self).direction,
            final(self).new_direction == old(self).new_direction,
            final(self).queued_direction == old(self).queued_direction,
    {
        match self.direction {
            Direction::Up => self.coordinate.y = self.coordinate.y - 1,
            Direction::Down => self.coordinate.y = self.coordinate.y + 1,
            Direction::Left => self.coordinate.x = self.coordinate.x - 1,
            Direction::Right => self.coordinate.x = self.coordinate.x + 1,
        }
    }
}

/// A pending turn request is adopted exactly when it is not the reverse of
/// the current heading; either way the pending slot is cleared and the
/// queued slot is left for the next tick.
pub proof fn lemma_turn_legality(s: Snake, r: Direction)
    requires
        s.new_direction == Some(r),
    ensures
        r != s.direction.spec_inverse() ==> turned(s).direction == r,
        r == s.direction.spec_inverse() ==> turned(s).direction == s.direction,
        turned(s).new_direction is None,
        turned(s).queued_direction == s.queued_direction,
{
}

} // verus!
