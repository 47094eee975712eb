use vstd::prelude::*;

use crate::grid::GridPosition;
use crate::grid::contains_position;

verus! {

/// How many random cells a relocation tries before it falls back to a
/// deterministic scan, so that a tick provably finishes.
pub const MAX_SAMPLE_ATTEMPTS: u32 = 32;

/// The first cell of the grid, scanned column by column, that none of
/// `occupied` covers; nothing when the grid is completely covered.
pub fn find_free_cell(grid_width: i16, grid_height: i16, occupied: &Vec<GridPosition>) -> (r:
    Option<GridPosition>)
    requires
        0 < grid_width,
        0 < grid_height,
    ensures
        (r matches Some(p) ==> p.spec_in_grid(grid_width as int, grid_height as int)
            && !occupied@.contains(p)),
        (r is None ==> forall|p: GridPosition|
            (#[trigger] p.spec_in_grid(grid_width as int, grid_height as int)) ==> occupied@.contains(
                p,
            )),
{
    let ghost w = grid_width as int;
    let ghost h = grid_height as int;
    let mut x: i16 = 0;
    while x < grid_width
        invariant
            0 < grid_width,
            0 < grid_height,
            0 <= x <= grid_width,
            forall|p: GridPosition|
                ((#[trigger] p.spec_in_grid(w, h)) && p.x < x) ==> occupied@.contains(p),
            w == grid_width as int,
            h == grid_height as int,
        decreases grid_width - x,
    {
        let mut y: i16 = 0;
        while y < grid_height
            invariant
                0 < grid_width,
                0 < grid_height,
                0 <= x < grid_width,
                0 <= y <= grid_height,
                forall|p: GridPosition|
                    ((#[trigger] p.spec_in_grid(w, h)) && p.x == x && p.y < y)
                        ==> occupied@.contains(p),
                w == grid_width as int,
                h == grid_height as int,
            decreases grid_height - y,
        {
            let cell = GridPosition { x, y };
            if !contains_position(occupied, cell) {
                return Some(cell);
            }
            y = y + 1;
        }
        proof {
            assert forall|p: GridPosition| (#[trigger] p.spec_in_grid(w, h)) && p.x < x + 1 implies occupied@.contains(
                p,
            ) by {
                if p.x == x {
                    assert(p.spec_in_grid(w, h) && p.x == x && p.y < grid_height);
                }
            }
        }
        x = x + 1;
    }
    None
}

/// The single food cell of the world: one grid position, relocated to a
/// cell the snake does not cover whenever it is eaten.
pub struct Food {
    pub pos: GridPosition,
}

impl Food {
    pub fn new(pos: GridPosition) -> (f: Food)
        ensures
            f.pos == pos,
    {
        Food { pos }
    }

    /// The cell the food sits on.
    pub fn position(&self) -> (r: GridPosition)
        ensures
            r == self.pos,
    {
        self.pos
    }

    /// Moves the food to a cell that none of `occupied` covers: random
    /// samples are drawn until one is free, but only a bounded number of
    /// times — after that the first free cell of a deterministic scan is
    /// taken, so the call terminates even though the samples are arbitrary.
    pub fn relocate(&mut self, grid_width: i16, grid_height: i16, occupied: &Vec<GridPosition>)
        requires
            0 < grid_width,
            0 < grid_height,
            exists|p: GridPosition|
                (#[trigger] p.spec_in_grid(grid_width as int, grid_height as int))
                    && !occupied@.contains(p),
        ensures
            final(self).pos.spec_in_grid(grid_width as int, grid_height as int),
            !occupied@.contains(final(self).pos),
    {
        let mut attempts: u32 = 0;
        while attempts < MAX_SAMPLE_ATTEMPTS
            invariant
                0 < grid_width,
                0 < grid_height,
            decreases MAX_SAMPLE_ATTEMPTS - attempts,
        {
            let candidate = GridPosition::random(grid_width, grid_height);
            if !contains_position(occupied, candidate) {
                self.pos = candidate;
                return ;
            }
            attempts = attempts + 1;
        }
        match find_free_cell(grid_width, grid_height, occupied) {
            Some(cell) => {
                self.pos = cell;
            },
            None => {
                proof {
                    let p = choose|p: GridPosition|
                        (#[trigger] p.spec_in_grid(grid_width as int, grid_height as int))
                            && !occupied@.contains(p);
                    assert(occupied@.contains(p));
                }
            },
        }
    }
}

} // verus!
