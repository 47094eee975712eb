use vstd::prelude::*;

use crate::direction::Direction;

verus! {

use vstd::arithmetic::div_mod::lemma_fundamental_div_mod;
use vstd::arithmetic::div_mod::lemma_mod_add_multiples_vanish;
use vstd::arithmetic::div_mod::lemma_mod_bound;
use vstd::arithmetic::div_mod::lemma_mod_multiples_vanish;
use vstd::arithmetic::div_mod::lemma_mod_self_0;
use vstd::arithmetic::div_mod::lemma_small_mod;

/// Euclidean remainder: the unique value in `[0, n)` congruent to `a` mod
/// `n`. The machine's truncating `%` hands back a negative value for a
/// negative `a`, which would carry a coordinate off the grid instead of
/// wrapping it; this normalizes explicitly.
pub fn modulo(a: i16, n: i16) -> (r: i16)
    requires
        0 < n,
    ensures
        r as int == (a as int) % (n as int),
        0 <= r < n,
{
    proof {
        lemma_mod_bound(a as int, n as int);
    }
    if a >= 0 {
        let r: u16 = (a as u16) % (n as u16);
        r as i16
    } else {
        let pos: u32 = (-(a as i32)) as u32;
        let rem: u32 = pos % (n as u32);
        proof {
            lemma_euclid_mod_of_negative(a as int, n as int);
        }
        if rem == 0 {
            0
        } else {
            (n as u32 - rem) as i16
        }
    }
}

/// For a negative dividend and a positive divisor, the Euclidean remainder is
/// the divisor minus the remainder of the magnitude, except when the
/// magnitude divides evenly.
proof fn lemma_euclid_mod_of_negative(a: int, n: int)
    requires
        a < 0,
        0 < n,
    ensures
        (-a) % n == 0 ==> a % n == 0,
        (-a) % n != 0 ==> a % n == n - (-a) % n,
{
    let pos = -a;
    let k = pos / n + 1;
    lemma_fundamental_div_mod(pos, n);
    assert(n * k + a == n - pos % n) by {
        assert(n * k == n * (pos / n) + n) by (nonlinear_arith)
            requires
                k == pos / n + 1,
        ;
    }
    lemma_mod_multiples_vanish(k, a, n);
    lemma_mod_bound(pos, n);
    if pos % n == 0 {
        lemma_mod_self_0(n);
    } else {
        lemma_small_mod((n - pos % n) as nat, n as nat);
    }
}

/// A cell of a wraparound grid: an integer pair with `x` in `[0, width)` and
/// `y` in `[0, height)` whenever it was produced by the movement or sampling
/// operations below.
#[derive(Clone, Copy, PartialEq, Eq, Structural, Debug)]
pub struct GridPosition {
    pub x: i16,
    pub y: i16,
}

impl GridPosition {
    /// Both coordinates lie on a `w` by `h` grid.
    pub open spec fn spec_in_grid(self, w: int, h: int) -> bool {
        0 <= self.x < w && 0 <= self.y < h
    }

    pub fn new(x: i16, y: i16) -> (r: GridPosition)
        ensures
            r == (GridPosition { x, y }),
    {
        GridPosition { x, y }
    }

    /// Where one wraparound step in direction `d` lands from `self`, on a
    /// `w` by `h` grid.
    pub open spec fn spec_translate(self, d: Direction, w: int, h: int) -> GridPosition
        recommends
            0 < w,
            0 < h,
    {
        match d {
            Direction::Up => GridPosition { x: self.x, y: ((self.y - 1) % h) as i16 },
            Direction::Down => GridPosition { x: self.x, y: ((self.y + 1) % h) as i16 },
            Direction::Left => GridPosition { x: ((self.x - 1) % w) as i16, y: self.y },
            Direction::Right => GridPosition { x: ((self.x + 1) % w) as i16, y: self.y },
        }
    }

    /// One step in direction `d`, wrapped into the grid with the Euclidean
    /// modulo: stepping off an edge re-enters at the opposite edge.
    pub fn translate(&self, d: Direction, grid_width: i16, grid_height: i16) -> (r: GridPosition)
        requires
            0 < grid_width,
            0 < grid_height,
            self.spec_in_grid(grid_width as int, grid_height as int),
        ensures
            r == self.spec_translate(d, grid_width as int, grid_height as int),
            r.spec_in_grid(grid_width as int, grid_height as int),
    {
        match d {
            Direction::Up => GridPosition { x: self.x, y: modulo(self.y - 1, grid_height) },
            Direction::Down => GridPosition { x: self.x, y: modulo(self.y + 1, grid_height) },
            Direction::Left => GridPosition { x: modulo(self.x - 1, grid_width), y: self.y },
            Direction::Right => GridPosition { x: modulo(self.x + 1, grid_width), y: self.y },
        }
    }
}

/// Relies on rand::random_range: a uniform sample from `0..bound`, which
/// lies in `[0, bound)`; with `0 < bound` the range is non-empty, so the
/// call cannot panic.
#[verifier::external_body]
fn random_below(bound: i16) -> (r: i16)
    requires
        0 < bound,
    ensures
        0 <= r < bound,
{
    rand::random_range(0..bound)
}

impl GridPosition {
    /// A uniformly random cell of the `max_x` by `max_y` grid; consumes
    /// entropy from the process-wide random source.
    pub fn random(max_x: i16, max_y: i16) -> (r: GridPosition)
        requires
            0 < max_x,
            0 < max_y,
        ensures
            r.spec_in_grid(max_x as int, max_y as int),
    {
        GridPosition { x: random_below(max_x), y: random_below(max_y) }
    }
}

/// Whether `p` equals one of the cells in `v`.
pub fn contains_position(v: &Vec<GridPosition>, p: GridPosition) -> (b: bool)
    ensures
        b == v@.contains(p),
{
    let mut i: usize = 0;
    while i < v.len()
        invariant
            0 <= i <= v@.len(),
            forall|j: int| 0 <= j < i ==> v@[j] != p,
        decreases v@.len() - i,
    {
        if v[i] == p {
            proof {
                assert(v@[i as int] == p);
            }
            return true;
        }
        i = i + 1;
    }
    false
}

/// A wraparound step from a cell of the grid lands on a cell of the grid,
/// whatever the direction.
pub proof fn lemma_translate_in_grid(p: GridPosition, d: Direction, w: i16, h: i16)
    requires
        0 < w,
        0 < h,
        p.spec_in_grid(w as int, h as int),
    ensures
        p.spec_translate(d, w as int, h as int).spec_in_grid(w as int, h as int),
{
    match d {
        Direction::Up => lemma_mod_bound(p.y - 1, h as int),
        Direction::Down => lemma_mod_bound(p.y + 1, h as int),
        Direction::Left => lemma_mod_bound(p.x - 1, w as int),
        Direction::Right => lemma_mod_bound(p.x + 1, w as int),
    }
}

/// Wraparound at the horizontal edges: a step left from the left edge lands
/// on the right edge, and a step right from the right edge lands back at the
/// left edge.
pub proof fn lemma_wraparound(w: i16, h: i16)
    requires
        0 < w,
        0 < h,
    ensures
        ({
            let left_edge = GridPosition { x: 0, y: 0 };
            let right_edge = GridPosition { x: (w - 1) as i16, y: 0 };
            left_edge.spec_translate(Direction::Left, w as int, h as int) == right_edge
                && right_edge.spec_translate(Direction::Right, w as int, h as int) == left_edge
        }),
{
    lemma_mod_add_multiples_vanish(-1, w as int);
    lemma_small_mod((w - 1) as nat, w as nat);
    lemma_mod_self_0(w as int);
}

} // verus!
