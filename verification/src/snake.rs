use vstd::prelude::*;

use crate::direction::Direction;
use crate::grid::GridPosition;

verus! {

/// What one tick of movement produced: either the head moved to the returned
/// cell, or it would have stepped onto the snake's own body and nothing
/// moved.
#[derive(Clone, Copy, PartialEq, Eq, Structural, Debug)]
pub enum AdvanceOutcome {
    Moved(GridPosition),
    SelfCollision,
}

use crate::grid::contains_position;

/// The snake: its cells head-first, its current heading, and the heading
/// buffered by input for the next tick.
pub struct Snake {
    pub body: Vec<GridPosition>,
    pub dir: Direction,
    pub pending: Option<Direction>,
}

impl Snake {
    /// The cells, head first.
    pub open spec fn spec_segments(self) -> Seq<GridPosition> {
        self.body@
    }

    /// The front cell.
    pub open spec fn spec_head(self) -> GridPosition
        recommends
            self.body@.len() > 0,
    {
        self.body@[0]
    }

    /// At least one cell, and every cell on the `w` by `h` grid.
    pub open spec fn wf(self, w: int, h: int) -> bool {
        self.body@.len() >= 1 && (forall|i: int|
            0 <= i < self.body@.len() ==> (#[trigger] self.body@[i]).spec_in_grid(w, h))
    }

    /// The heading the next `advance` will use: the buffered one if a
    /// direction change is pending, the current one otherwise.
    pub open spec fn spec_effective_direction(self) -> Direction {
        match self.pending {
            Some(d) => d,
            None => self.dir,
        }
    }

    /// Whether a requested heading is thrown away: the exact reversal of the
    /// current heading is rejected, everything else is buffered.
    pub open spec fn spec_rejects(self, d: Direction) -> bool {
        d == self.dir.spec_inverse()
    }

    /// The snake after a direction request: unchanged when the request is a
    /// reversal, otherwise the same snake with the request buffered.
    pub open spec fn spec_set_pending(self, d: Direction) -> Snake {
        if self.spec_rejects(d) {
            self
        } else {
            Snake { body: self.body, dir: self.dir, pending: Some(d) }
        }
    }

    /// The cell the head steps to at the next `advance`.
    pub open spec fn spec_next_head(self, w: int, h: int) -> GridPosition {
        self.spec_head().spec_translate(self.spec_effective_direction(), w, h)
    }

    /// Whether the next step would run the head into a current cell.
    pub open spec fn spec_hits_body(self, w: int, h: int) -> bool {
        self.body@.contains(self.spec_next_head(w, h))
    }

    /// The head does not overlap any body cell.
    pub open spec fn spec_head_clear(self) -> bool
        recommends
            self.body@.len() > 0,
    {
        forall|i: int| 1 <= i < self.body@.len() ==> self.body@[i] != self.spec_head()
    }

    /// A fresh snake of a single cell heading `dir`, with nothing buffered.
    pub fn new(head: GridPosition, dir: Direction) -> (s: Snake)
        ensures
            s.spec_segments() == seq![head],
            s.dir == dir,
            s.pending is None,
    {
        let mut body: Vec<GridPosition> = Vec::new();
        body.push(head);
        proof {
            assert(body@ =~= seq![head]);
        }
        Snake { body, dir, pending: None }
    }

    pub fn head(&self) -> (r: GridPosition)
        requires
            self.body@.len() > 0,
        ensures
            r == self.spec_head(),
    {
        self.body[0]
    }

    pub fn len(&self) -> (n: usize)
        ensures
            n == self.spec_segments().len(),
    {
        self.body.len()
    }

    pub fn segments(&self) -> (r: &Vec<GridPosition>)
        ensures
            r@ == self.spec_segments(),
    {
        &self.body
    }

    pub fn direction(&self) -> (r: Direction)
        ensures
            r == self.dir,
    {
        self.dir
    }

    /// The cell the head will step to at the next `advance`, under the
    /// buffered heading if one is pending.
    pub fn next_head(&self, grid_width: i16, grid_height: i16) -> (r: GridPosition)
        requires
            0 < grid_width,
            0 < grid_height,
            self.wf(grid_width as int, grid_height as int),
        ensures
            r == self.spec_next_head(grid_width as int, grid_height as int),
            r.spec_in_grid(grid_width as int, grid_height as int),
    {
        let dir = match self.pending {
            Some(d) => d,
            None => self.dir,
        };
        self.head().translate(dir, grid_width, grid_height)
    }

    /// Buffers `d` as the heading for the next tick, unless it is the exact
    /// reversal of the current heading: that request is dropped, so the head
    /// can never be told to step straight back into its neck.
    pub fn set_pending_direction(&mut self, d: Direction)
        ensures
            *final(self) == old(self).spec_set_pending(d),
            old(self).spec_rejects(d) ==> *final(self) == *old(self),
            !old(self).spec_rejects(d) ==> final(self).pending == Some(d),
            final(self).body == old(self).body,
            final(self).dir == old(self).dir,
    {
        let rejected = d == self.dir.inverse();
        if !rejected {
            self.pending = Some(d);
        }
    }

    /// One tick of movement. The buffered heading, if any, becomes the
    /// current one and the head steps one wraparound cell that way. Stepping
    /// onto any current cell is a self-collision and leaves the body exactly
    /// as it was; otherwise the new head is pushed in front and, unless the
    /// snake just ate, the tail cell is dropped — so eating grows the snake
    /// by exactly one cell and ordinary movement keeps its length.
    pub fn advance(&mut self, grid_width: i16, grid_height: i16, ate_food: bool) -> (outcome:
        AdvanceOutcome)
        requires
            0 < grid_width,
            0 < grid_height,
            old(self).wf(grid_width as int, grid_height as int),
        ensures
            final(self).wf(grid_width as int, grid_height as int),
            final(self).dir == old(self).spec_effective_direction(),
            final(self).pending is None,
            ({
                let w = grid_width as int;
                let h = grid_height as int;
                let nh = old(self).spec_next_head(w, h);
                if old(self).spec_hits_body(w, h) {
                    outcome == AdvanceOutcome::SelfCollision && final(self).spec_segments() == old(
                        self,
                    ).spec_segments()
                } else {
                    outcome == AdvanceOutcome::Moved(nh) && final(self).spec_segments() == seq![nh]
                        + (if ate_food {
                        old(self).spec_segments()
                    } else {
                        old(self).spec_segments().drop_last()
                    })
                }
            }),
            ({
                let w = grid_width as int;
                let h = grid_height as int;
                if ate_food && !old(self).spec_hits_body(w, h) {
                    final(self).spec_segments().len() == old(self).spec_segments().len() + 1
                } else {
                    final(self).spec_segments().len() == old(self).spec_segments().len()
                }
            }),
            !old(self).spec_hits_body(grid_width as int, grid_height as int)
                ==> final(self).spec_head_clear(),
    {
        let dir = match self.pending {
            Some(d) => d,
            None => self.dir,
        };
        self.dir = dir;
        self.pending = None;
        let new_head = self.body[0].translate(dir, grid_width, grid_height);
        if contains_position(&self.body, new_head) {
            return AdvanceOutcome::SelfCollision;
        }
        self.body.insert(0, new_head);
        if !ate_food {
            let _tail = self.body.pop();
            proof {
                assert(self.body@ =~= seq![new_head] + old(self).body@.drop_last());
            }
        }
        proof {
            let w = grid_width as int;
            let h = grid_height as int;
            if ate_food {
                assert(self.body@ =~= seq![new_head] + old(self).body@);
            }
            assert forall|i: int| 0 <= i < self.body@.len() implies (#[trigger] self.body@[i]).spec_in_grid(
                w,
                h,
            ) by {
                if i > 0 {
                    assert(self.body@[i] == old(self).body@[i - 1]);
                    assert(old(self).body@[i - 1].spec_in_grid(w, h));
                }
            }
            assert forall|i: int| 1 <= i < self.body@.len() implies self.body@[i] != self.spec_head() by {
                assert(self.body@[i] == old(self).body@[i - 1]);
                assert(old(self).body@[i - 1] != new_head);
            }
        }
        AdvanceOutcome::Moved(new_head)
    }
}

/// A reversal buffered before a tick has no effect at all: with no input
/// pending, offering the exact inverse of the current heading leaves the
/// snake unchanged, so the next step still carries the head one cell along
/// the current heading — never backwards.
pub proof fn lemma_reversal_rejected(s: Snake, w: int, h: int)
    requires
        s.wf(w, h),
        s.pending is None,
    ensures
        s.spec_set_pending(s.dir.spec_inverse()) == s,
        s.spec_set_pending(s.dir.spec_inverse()).spec_next_head(w, h) == s.spec_head().spec_translate(
            s.dir,
            w,
            h,
        ),
{
}

} // verus!
