//! The grid engine: a fixed-size board of cells that advances one
//! generation at a time.

use vstd::prelude::*;

use crate::rules::{
    alive_count, dead_grid, has_shape, in_bounds, lists_live_before, lists_live_cells,
    lists_only_live_in_order, neighbor_count, next_generation, precedes, toggled,
};

verus! {

/// Neighbour count at which a dead cell comes alive.
pub const LIVE_THRESHOLD: u8 = 3;

/// A living cell with fewer neighbours than this dies.
pub const DIE_THRESHOLD_LOWER: u8 = 2;

/// A living cell with more neighbours than this dies.
pub const DIE_THRESHOLD_UPPER: u8 = 3;

/// The largest width or height of a grid: coordinates are `i32` values.
pub const MAX_DIMENSION: usize = 0x7fff_ffff;

/// Why a grid operation was refused.
#[derive(Debug, Clone, Copy, PartialEq, Eq, Structural)]
pub enum GridError {
    /// A coordinate lies outside the grid.
    OutOfBounds,
    /// A grid was asked for with zero width or zero height.
    InvalidDimensions,
}

/// The board: `state[x][y]` is the cell at column `x`, row `y`.
pub struct GameOfLife {
    pub state: Vec<Vec<bool>>,
    pub state_width: usize,
    pub state_height: usize,
    pub live_threshold: u8,
    pub die_threshold_lower: u8,
    pub die_threshold_upper: u8,
}

/// Builds a `w` by `h` grid of dead cells.
fn dead_cells(w: usize, h: usize) -> (r: Vec<Vec<bool>>)
    ensures
        r@.map_values(|col: Vec<bool>| col@) == dead_grid(w as int, h as int),
{
    let mut r: Vec<Vec<bool>> = Vec::new();
    for x in 0..w
        invariant
            r@.len() == x,
            forall|i: int| 0 <= i < x ==> (#[trigger] r@[i])@ == Seq::new(h as nat, |y: int| false),
    {
        let mut col: Vec<bool> = Vec::new();
        for y in 0..h
            invariant
                col@ == Seq::new(y as nat, |j: int| false),
        {
            col.push(false);
            assert(col@ =~= Seq::new((y + 1) as nat, |j: int| false));
        }
        assert(col@ =~= Seq::new(h as nat, |j: int| false));
        r.push(col);
    }
    assert(r@.map_values(|col: Vec<bool>| col@) =~= dead_grid(w as int, h as int));
    r
}

/// Relies on rand::random::<bool>: a fresh boolean from the thread-local
/// generator. Nothing is promised of its value.
#[verifier::external_body]
fn random_bool() -> bool {
    rand::random::<bool>()
}

impl GameOfLife {
    /// The cells as a sequence of columns.
    pub open spec fn cells(&self) -> Seq<Seq<bool>> {
        self.state@.map_values(|col: Vec<bool>| col@)
    }

    /// The board holds `state_width` columns of `state_height` cells, both
    /// positive and usable as `i32` coordinates.
    pub open spec fn wf(&self) -> bool {
        &&& 0 < self.state_width <= MAX_DIMENSION
        &&& 0 < self.state_height <= MAX_DIMENSION
        &&& has_shape(self.cells(), self.state_width as int, self.state_height as int)
    }

    /// The thresholds are those of Conway's rule: birth on 3, survival on
    /// 2 or 3.
    pub open spec fn has_standard_rule(&self) -> bool {
        &&& self.live_threshold == LIVE_THRESHOLD
        &&& self.die_threshold_lower == DIE_THRESHOLD_LOWER
        &&& self.die_threshold_upper == DIE_THRESHOLD_UPPER
    }

    /// The generation that follows this one.
    pub open spec fn next_cells(&self) -> Seq<Seq<bool>> {
        next_generation(
            self.cells(),
            self.state_width as int,
            self.state_height as int,
            self.live_threshold as int,
            self.die_threshold_lower as int,
            self.die_threshold_upper as int,
        )
    }

    /// Width, height and rule are those of `other`.
    pub open spec fn same_frame(&self, other: &GameOfLife) -> bool {
        &&& self.state_width == other.state_width
        &&& self.state_height == other.state_height
        &&& self.live_threshold == other.live_threshold
        &&& self.die_threshold_lower == other.die_threshold_lower
        &&& self.die_threshold_upper == other.die_threshold_upper
    }

    /// A `width` by `height` grid of dead cells under the standard rule;
    /// a zero dimension is refused.
    pub fn new(width: usize, height: usize) -> (r: Result<GameOfLife, GridError>)
        requires
            width <= MAX_DIMENSION,
            height <= MAX_DIMENSION,
        ensures
            r is Ok <==> width > 0 && height > 0,
            r is Err ==> r == Err::<GameOfLife, GridError>(GridError::InvalidDimensions),
            r is Ok ==> ({
                let g = r->Ok_0;
                &&& g.wf()
                &&& g.has_standard_rule()
                &&& g.state_width == width
                &&& g.state_height == height
                &&& g.cells() == dead_grid(width as int, height as int)
            }),
    {
        if width == 0 || height == 0 {
            return Err(GridError::InvalidDimensions);
        }
        Ok(
            GameOfLife {
                state: dead_cells(width, height),
                state_width: width,
                state_height: height,
                live_threshold: LIVE_THRESHOLD,
                die_threshold_lower: DIE_THRESHOLD_LOWER,
                die_threshold_upper: DIE_THRESHOLD_UPPER,
            },
        )
    }

    /// The number of living cells among the eight positions around `(x, y)`
    /// that lie on the grid.
    pub fn cell_get_neighbors(&self, x: i32, y: i32) -> (r: u8)
        requires
            self.wf(),
        ensures
            r as int == neighbor_count(
                self.cells(),
                self.state_width as int,
                self.state_height as int,
                x as int,
                y as int,
            ),
            r <= 8,
    {
        let x = x as i64;
        let y = y as i64;
        self.alive_at(x - 1, y - 1) + self.alive_at(x, y - 1) + self.alive_at(x + 1, y - 1)
            + self.alive_at(x - 1, y) + self.alive_at(x + 1, y) + self.alive_at(x - 1, y + 1)
            + self.alive_at(x, y + 1) + self.alive_at(x + 1, y + 1)
    }

    /// Advances the grid by one generation. Every count is taken from the
    /// current generation; the new one is written to a fresh buffer.
    pub fn update(&mut self)
        requires
            old(self).wf(),
        ensures
            final(self).wf(),
            final(self).same_frame(old(self)),
            final(self).cells() == old(self).next_cells(),
    {
        let ghost next = self.next_cells();
        let w = self.state_width;
        let h = self.state_height;
        let mut new_state: Vec<Vec<bool>> = Vec::new();
        for x in 0..w
            invariant
                self.wf(),
                w == self.state_width,
                h == self.state_height,
                next == self.next_cells(),
                new_state@.len() == x,
                forall|i: int| 0 <= i < x ==> (#[trigger] new_state@[i])@ == next[i],
        {
            let mut col: Vec<bool> = Vec::new();
            for y in 0..h
                invariant
                    self.wf(),
                    w == self.state_width,
                    h == self.state_height,
                    next == self.next_cells(),
                    x < w,
                    col@ == next[x as int].take(y as int),
            {
                let n = self.cell_get_neighbors(x as i32, y as i32);
                assert(self.cells()[x as int] == self.state@[x as int]@);
                let alive = self.state[x][y];
                let next_state = if alive && (n < self.die_threshold_lower
                    || n > self.die_threshold_upper) {
                    false
                } else if !alive && n == self.live_threshold {
                    true
                } else {
                    alive
                };
                col.push(next_state);
                assert(col@ =~= next[x as int].take(y + 1));
            }
            assert(col@ =~= next[x as int]);
            new_state.push(col);
        }
        self.state = new_state;
        assert(self.cells() =~= next);
    }

    /// Sets every cell to dead; the dimensions stay.
    pub fn empty_state(&mut self)
        requires
            old(self).wf(),
        ensures
            final(self).wf(),
            final(self).same_frame(old(self)),
            final(self).cells() == dead_grid(
                old(self).state_width as int,
                old(self).state_height as int,
            ),
    {
        self.state = dead_cells(self.state_width, self.state_height);
    }

    /// Sets every cell to a fresh random boolean, drawing row by row and
    /// left to right within a row; the dimensions stay.
    pub fn randomize_state(&mut self)
        requires
            old(self).wf(),
        ensures
            final(self).wf(),
            final(self).same_frame(old(self)),
    {
        let w = self.state_width;
        let h = self.state_height;
        let mut bits: Vec<bool> = Vec::new();
        assert(0 * w == 0) by (nonlinear_arith);
        for y in 0..h
            invariant
                bits@.len() == y * w,
        {
            for x in 0..w
                invariant
                    bits@.len() == y * w + x,
            {
                bits.push(random_bool());
            }
            assert(y * w + w == (y + 1) * w) by (nonlinear_arith);
        }
        assert(h * w == w * h) by (nonlinear_arith);
        self.fill_cells(&bits);
    }

    /// Sets every cell from `bits`, which lists the cells row by row and
    /// left to right within a row: the cell at `(x, y)` takes
    /// `bits[y * width + x]`. The dimensions stay.
    pub fn fill_cells(&mut self, bits: &Vec<bool>)
        requires
            old(self).wf(),
            bits@.len() == old(self).state_width * old(self).state_height,
        ensures
            final(self).wf(),
            final(self).same_frame(old(self)),
            forall|x: int, y: int|
                in_bounds(old(self).state_width as int, old(self).state_height as int, x, y)
                    ==> #[trigger] final(self).cells()[x][y] == bits@[y * old(self).state_width
                    + x],
    {
        let w = self.state_width;
        let h = self.state_height;
        let n = bits.len();
        let mut new_state: Vec<Vec<bool>> = Vec::new();
        for x in 0..w
            invariant
                n == bits@.len(),
                bits@.len() == w * h,
                new_state@.len() == x,
                forall|i: int| 0 <= i < x ==> (#[trigger] new_state@[i])@.len() == h,
                forall|i: int, j: int|
                    0 <= i < x && 0 <= j < h ==> #[trigger] new_state@[i]@[j] == bits@[j * w + i],
        {
            let mut col: Vec<bool> = Vec::new();
            for y in 0..h
                invariant
                    n == bits@.len(),
                    bits@.len() == w * h,
                    x < w,
                    col@.len() == y,
                    forall|j: int| 0 <= j < y ==> #[trigger] col@[j] == bits@[j * w + x],
            {
                assert(y * w + x < w * h && 0 <= y * w) by (nonlinear_arith)
                    requires
                        y < h,
                        x < w,
                ;
                assert(y * w + x < n);
                let k = y * w + x;
                col.push(bits[k]);
            }
            new_state.push(col);
        }
        self.state = new_state;
        assert forall|x: int, y: int|
            in_bounds(w as int, h as int, x, y) implies #[trigger] self.cells()[x][y] == bits@[y
            * w + x] by {
            assert(y * w + x < w * h) by (nonlinear_arith)
                requires
                    0 <= y < h,
                    0 <= x < w,
            ;
            assert(self.cells()[x] == new_state@[x]@);
        }
    }

    /// Flips the cell at `(x, y)`; a position off the grid is refused and
    /// nothing changes.
    pub fn toggle_cell(&mut self, x: usize, y: usize) -> (r: Result<(), GridError>)
        requires
            old(self).wf(),
        ensures
            final(self).wf(),
            final(self).same_frame(old(self)),
            r is Ok <==> x < old(self).state_width && y < old(self).state_height,
            r is Ok ==> final(self).cells() == toggled(old(self).cells(), x as int, y as int),
            r is Err ==> r == Err::<(), GridError>(GridError::OutOfBounds) && final(self).cells()
                == old(self).cells(),
    {
        if x >= self.state_width || y >= self.state_height {
            return Err(GridError::OutOfBounds);
        }
        assert(self.cells()[x as int] == self.state@[x as int]@);
        let ghost before = self.cells();
        let cur = self.state[x][y];
        self.state[x][y] = !cur;
        assert(self.cells() =~= toggled(before, x as int, y as int));
        Ok(())
    }

    /// Whether the cell at `(x, y)` is alive; a position off the grid is
    /// refused.
    pub fn cell_at(&self, x: usize, y: usize) -> (r: Result<bool, GridError>)
        requires
            self.wf(),
        ensures
            x < self.state_width && y < self.state_height ==> r == Ok::<bool, GridError>(
                self.cells()[x as int][y as int],
            ),
            !(x < self.state_width && y < self.state_height) ==> r == Err::<bool, GridError>(
                GridError::OutOfBounds,
            ),
    {
        if x >= self.state_width || y >= self.state_height {
            return Err(GridError::OutOfBounds);
        }
        assert(self.cells()[x as int] == self.state@[x as int]@);
        Ok(self.state[x][y])
    }

    /// The living cells, row by row and left to right within a row: one
    /// entry for each cell the display has to light.
    pub fn draw(&self) -> (r: Vec<(usize, usize)>)
        requires
            self.wf(),
        ensures
            lists_live_cells(r@, self.cells(), self.state_width as int, self.state_height as int),
    {
        let w = self.state_width;
        let h = self.state_height;
        let ghost c = self.cells();
        let mut r: Vec<(usize, usize)> = Vec::new();
        for y in 0..h
            invariant
                self.wf(),
                w == self.state_width,
                h == self.state_height,
                c == self.cells(),
                lists_only_live_in_order(r@, c, w as int, h as int),
                forall|k: int| 0 <= k < r@.len() ==> (#[trigger] r@[k]).1 < y,
                lists_live_before(r@, c, w as int, h as int, 0, y as int),
        {
            for x in 0..w
                invariant
                    self.wf(),
                    w == self.state_width,
                    h == self.state_height,
                    c == self.cells(),
                    y < h,
                    lists_only_live_in_order(r@, c, w as int, h as int),
                    forall|k: int|
                        0 <= k < r@.len() ==> precedes(
                            (#[trigger] r@[k]).0 as int,
                            r@[k].1 as int,
                            x as int,
                            y as int,
                        ),
                    lists_live_before(r@, c, w as int, h as int, x as int, y as int),
            {
                assert(self.cells()[x as int] == self.state@[x as int]@);
                if self.state[x][y] {
                    let ghost old_r = r@;
                    r.push((x, y));
                    assert forall|i: int, j: int|
                        in_bounds(w as int, h as int, i, j) && precedes(i, j, x + 1, y as int)
                            && #[trigger] c[i][j] implies exists|k: int|
                        0 <= k < r@.len() && #[trigger] r@[k] == (i as usize, j as usize) by {
                        if precedes(i, j, x as int, y as int) {
                            let k = choose|k: int|
                                0 <= k < old_r.len() && #[trigger] old_r[k] == (
                                    i as usize,
                                    j as usize,
                                );
                            assert(r@[k] == old_r[k]);
                        } else {
                            assert(r@[old_r.len() as int] == (i as usize, j as usize));
                        }
                    }
                }
            }
        }
        r
    }

    /// 1 when `(x, y)` is on the grid and alive, else 0.
    fn alive_at(&self, x: i64, y: i64) -> (r: u8)
        requires
            self.wf(),
        ensures
            r as int == alive_count(
                self.cells(),
                self.state_width as int,
                self.state_height as int,
                x as int,
                y as int,
            ),
    {
        if 0 <= x && 0 <= y && x < self.state_width as i64 && y < self.state_height as i64 {
            let xu = x as usize;
            let yu = y as usize;
            assert(self.cells()[xu as int] == self.state@[xu as int]@);
            if self.state[xu][yu] {
                1
            } else {
                0
            }
        } else {
            0
        }
    }
}

} // verus!
