//! The round controller: ties snake, food and score together, runs one
//! simulation tick (turn, head step, collision resolution) and resets the
//! round wholesale on death.

use vstd::prelude::*;

use crate::food::{Food, FOOD_START_X, FOOD_START_Y};
use crate::grid::{in_bounds, moved, Coordinate};
use crate::score::{ScoreTracker, SCORE_POS_X, SCORE_POS_Y};
use crate::snake::{is_initial_snake, occupied, turned, Snake, TailPart, INITIAL_TAIL_LEN};

verus! {

/// One round of the game: the snake, the food pellet and the score.
pub struct Game {
    pub snake: Snake,
    pub food: Food,
    pub score_tracker: ScoreTracker,
}

/// A freshly started round: initial snake, food at its fixed spawn cell,
/// score zero.
pub open spec fn is_initial_game(g: Game) -> bool {
    &&& is_initial_snake(g.snake)
    &&& g.food.coordinate == (Coordinate { x: FOOD_START_X, y: FOOD_START_Y })
    &&& g.score_tracker.score == 0
    &&& g.score_tracker.coordinate == (Coordinate { x: SCORE_POS_X, y: SCORE_POS_Y })
}

/// The snake after the per-tick head step: the head one cell further along
/// the current heading, everything else untouched.
pub open spec fn advanced(s: Snake) -> Snake {
    Snake { coordinate: moved(s.coordinate, s.direction), ..s }
}

/// The round state just before collision resolution: turn applied, head
/// stepped, food and score untouched.
pub open spec fn stepped(g: Game) -> Game {
    Game { snake: advanced(turned(g.snake)), ..g }
}

/// How collision resolution relates the round state before it (`pre`, with
/// the head already stepped) to the state after it (`post`), and whether the
/// round was reset. In order: a head off the field resets the round; a head
/// on the food relocates the food clear of the tail, steps the score and
/// grows the tail by one segment under the head; otherwise the tail slides
/// forward at constant length. A head on any tail segment except the newest
/// one (which always sits under the head) then resets the round as well.
pub open spec fn collision_rel(pre: Game, post: Game, reset: bool) -> bool {
    let h = pre.snake.coordinate;
    let t = pre.snake.tail@;
    if !in_bounds(h) {
        reset && is_initial_game(post)
    } else if h == pre.food.coordinate {
        if occupied(t, h) {
            reset && is_initial_game(post)
        } else {
            &&& !reset
            &&& post.snake.coordinate == h
            &&& post.snake.tail@ == t.push(TailPart { coordinate: h })
            &&& post.snake.direction == pre.snake.direction
            &&& post.snake.new_direction == pre.snake.new_direction
            &&& post.snake.queued_direction == pre.snake.queued_direction
            &&& post.score_tracker.score == (if pre.score_tracker.score < u16::MAX {
                pre.score_tracker.score + 1
            } else {
                u16::MAX as int
            })
            &&& post.score_tracker.coordinate == pre.score_tracker.coordinate
            &&& ((exists|c: Coordinate| in_bounds(c) && !occupied(t, c)) ==> in_bounds(
                post.food.coordinate,
            ) && !occupied(t, post.food.coordinate))
            &&& (!(exists|c: Coordinate| in_bounds(c) && !occupied(t, c))
                ==> post.food.coordinate == pre.food.coordinate)
        }
    } else {
        if occupied(t.drop_first(), h) {
            reset && is_initial_game(post)
        } else {
            &&& !reset
            &&& post.snake.coordinate == h
            &&& post.snake.tail@ == t.drop_first().push(TailPart { coordinate: h })
            &&& post.snake.direction == pre.snake.direction
            &&& post.snake.new_direction == pre.snake.new_direction
            &&& post.snake.queued_direction == pre.snake.queued_direction
            &&& post.food == pre.food
            &&& post.score_tracker == pre.score_tracker
        }
    }
}

impl Game {
    /// Well-formedness between ticks: the head is on the field, the tail is
    /// never empty, and its newest segment lies under the head.
    pub open spec fn wf(self) -> bool {
        &&& in_bounds(self.snake.coordinate)
        &&& self.snake.tail@.len() >= 1
        &&& self.snake.tail@.last().coordinate == self.snake.coordinate
    }

    pub fn new() -> (g: Game)
        ensures
            is_initial_game(g),
            g.wf(),
    {
        let g = Game {
            snake: Snake::new(),
            food: Food::new(),
            score_tracker: ScoreTracker::new(),
        };
        proof {
            assert(g.snake.tail@.last() == g.snake.tail@[INITIAL_TAIL_LEN - 1]);
        }
        g
    }

    /// Applies the buffered turn for this tick: a pending request is adopted
    /// exactly when it is not the reverse of the current heading and is
    /// cleared either way; with no pending request a queued one is promoted
    /// under the same rule.
    pub fn turn(&mut self)
        ensures
            final(self).snake == turned(old(self).snake),
            final(self).food == old(self).food,
            final(self).score_tracker == old(self).score_tracker,
    {
        match self.snake.new_direction {
            Some(new_direction) => {
                if new_direction != self.snake.direction.inverse() {
                    self.snake.direction = new_direction;
                }
                self.snake.new_direction = None;
            },
            None => {
                match self.snake.queued_direction {
                    Some(queued_direction) => {
                        if queued_direction != self.snake.direction.inverse() {
                            self.snake.direction = queued_direction;
                        }
                        self.snake.queued_direction = None;
                    },
                    None => {},
                }
            },
        }
    }

    /// True iff the head lies on a tail segment other than the newest one;
    /// the newest segment always sits under the head and must not count.
    fn self_collision(&self) -> (r: bool)
        requires
            self.snake.tail@.len() >= 1,
        ensures
            r == occupied(self.snake.tail@.drop_last(), self.snake.coordinate),
    {
        let n = self.snake.tail.len();
        let mut i: usize = 0;
        while i < n - 1
            invariant
                n == self.snake.tail@.len(),
                n >= 1,
                0 <= i <= n - 1,
                forall|j: int| 0 <= j < i ==> self.snake.tail@[j].coordinate
                    != self.snake.coordinate,
            decreases n - 1 - i,
        {
            if self.snake.tail[i].coordinate == self.snake.coordinate {
                proof {
                    assert(self.snake.tail@.drop_last()[i as int].coordinate
                        == self.snake.coordinate);
                }
                return true;
            }
            i = i + 1;
        }
        proof {
            assert forall|j: int|
                0 <= j < self.snake.tail@.drop_last().len() implies self.snake.tail@.drop_last()[j].coordinate
                != self.snake.coordinate by {
                assert(self.snake.tail@.drop_last()[j] == self.snake.tail@[j]);
            }
        }
        false
    }

    /// Collision resolution for one tick, run right after the head step:
    /// resets the round on a wall hit, handles food pickup or the normal
    /// tail slide, then resets on self-collision. Returns whether the round
    /// was reset.
    pub fn collision(&mut self) -> (reset: bool)
        requires
            old(self).snake.tail@.len() >= 1,
        ensures
            collision_rel(*old(self), *final(self), reset),
    {
        let ghost t = old(self).snake.tail@;
        if self.snake.coordinate.out_of_bounds() {
            *self = Game::new();
            return true;
        }
        if self.snake.coordinate == self.food.coordinate {
            self.food.new_location(&self.snake.tail);
            self.score_tracker.inc_score();
            let new_tail_part = TailPart::new(self.snake.coordinate.x, self.snake.coordinate.y);
            self.snake.tail.push_back(new_tail_part);
            proof {
                assert(self.snake.tail@.drop_last() =~= t);
            }
        } else {
            let new_tail_part = TailPart::new(self.snake.coordinate.x, self.snake.coordinate.y);
            self.snake.tail.push_back(new_tail_part);
            self.snake.tail.pop_front();
            proof {
                assert(self.snake.tail@ =~= t.drop_first().push(
                    TailPart { coordinate: old(self).snake.coordinate },
                ));
                assert(self.snake.tail@.drop_last() =~= t.drop_first());
            }
        }
        if self.self_collision() {
            *self = Game::new();
            return true;
        }
        false
    }

    /// One simulation tick: apply the buffered turn, step the head one cell,
    /// then resolve collisions. Returns whether the round was reset.
    pub fn tick(&mut self) -> (reset: bool)
        requires
            old(self).wf(),
        ensures
            collision_rel(stepped(*old(self)), *final(self), reset),
            final(self).wf(),
    {
        self.turn();
        self.snake.update();
        let reset = self.collision();
        proof {
            if reset {
                lemma_initial_game_wf(*self);
            } else {
                assert(self.snake.tail@.last() == self.snake.tail@[self.snake.tail@.len() - 1]);
            }
        }
        reset
    }
}

/// A freshly started round is well formed.
pub proof fn lemma_initial_game_wf(g: Game)
    requires
        is_initial_game(g),
    ensures
        g.wf(),
{
    assert(g.snake.tail@.last() == g.snake.tail@[INITIAL_TAIL_LEN - 1]);
}

/// After a tick that does not reset the round, the tail keeps its length on
/// a plain move and grows by exactly one when the food is eaten; a reset
/// brings the tail back to its initial length.
pub proof fn lemma_tail_length_after_tick(pre: Game, post: Game, reset: bool)
    requires
        pre.wf(),
        collision_rel(stepped(pre), post, reset),
    ensures
        !reset && stepped(pre).snake.coordinate == pre.food.coordinate ==> post.snake.tail@.len()
            == pre.snake.tail@.len() + 1,
        !reset && stepped(pre).snake.coordinate != pre.food.coordinate ==> post.snake.tail@.len()
            == pre.snake.tail@.len(),
        reset ==> post.snake.tail@.len() == INITIAL_TAIL_LEN,
{
}

/// The self-collision check spares the newest tail segment: after a plain
/// move whose head does not run into the rest of the body, the newest
/// segment does lie on the head's cell, yet the round is not reset.
pub proof fn lemma_self_collision_excludes_newest(pre: Game, post: Game, reset: bool)
    requires
        pre.snake.tail@.len() >= 2,
        in_bounds(pre.snake.coordinate),
        pre.snake.coordinate != pre.food.coordinate,
        !occupied(pre.snake.tail@.drop_first(), pre.snake.coordinate),
        collision_rel(pre, post, reset),
    ensures
        !reset,
        occupied(post.snake.tail@, post.snake.coordinate),
{
    assert(post.snake.tail@[post.snake.tail@.len() - 1].coordinate == post.snake.coordinate);
}

} // verus!

