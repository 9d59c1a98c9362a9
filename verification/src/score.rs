//! The round's score: a counter stepped once per food consumed, plus the
//! fixed cell where the score is displayed.

use vstd::prelude::*;

use crate::grid::Coordinate;

verus! {

/// Column of the cell where the score is displayed.
pub const SCORE_POS_X: i16 = 1;

/// Row of the cell where the score is displayed.
pub const SCORE_POS_Y: i16 = 1;

/// Counts food consumed this round; the display position is cosmetic.
pub struct ScoreTracker {
    pub score: u16,
    pub coordinate: Coordinate,
}

impl ScoreTracker {
    pub fn new() -> (s: ScoreTracker)
        ensures
            s.score == 0,
            s.coordinate == (Coordinate { x: SCORE_POS_X, y: SCORE_POS_Y }),
    {
        ScoreTracker { score: 0, coordinate: Coordinate::new(SCORE_POS_X, SCORE_POS_Y) }
    }

    /// Steps the score by one; at the counter's ceiling it stays put rather
    /// than wrap.
    pub fn inc_score(&mut self)
        ensures
            old(self).score < u16::MAX ==> final(self).score == old(self).score + 1,
            old(self).score == u16::MAX ==> final(self).score == u16::MAX,
            final(self).coordinate == old(self).coordinate,
    {
        if self.score < u16::MAX {
            self.score = self.score + 1;
        }
    }
}

} // verus!
