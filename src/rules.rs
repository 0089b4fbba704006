//! The mathematical model of the automaton: a grid is a sequence of columns,
//! `c[x][y]` is the cell at `(x, y)`, and `true` means alive.

use vstd::prelude::*;

verus! {

/// Whether `(x, y)` lies on a grid `w` cells wide and `h` cells high.
pub open spec fn in_bounds(w: int, h: int, x: int, y: int) -> bool {
    0 <= x < w && 0 <= y < h
}

/// `c` holds exactly `w` columns of exactly `h` cells.
pub open spec fn has_shape(c: Seq<Seq<bool>>, w: int, h: int) -> bool {
    &&& c.len() == w
    &&& forall|x: int| 0 <= x < w ==> #[trigger] c[x].len() == h
}

/// 1 for a living cell at `(x, y)`, 0 otherwise; positions off the grid
/// are never alive.
pub open spec fn alive_count(c: Seq<Seq<bool>>, w: int, h: int, x: int, y: int) -> int {
    if in_bounds(w, h, x, y) && c[x][y] {
        1
    } else {
        0
    }
}

/// The number of living cells among the eight positions around `(x, y)`
/// that lie on the grid (no wraparound at the edges).
pub open spec fn neighbor_count(c: Seq<Seq<bool>>, w: int, h: int, x: int, y: int) -> int {
    alive_count(c, w, h, x - 1, y - 1) + alive_count(c, w, h, x, y - 1) + alive_count(
        c,
        w,
        h,
        x + 1,
        y - 1,
    ) + alive_count(c, w, h, x - 1, y) + alive_count(c, w, h, x + 1, y) + alive_count(
        c,
        w,
        h,
        x - 1,
        y + 1,
    ) + alive_count(c, w, h, x, y + 1) + alive_count(c, w, h, x + 1, y + 1)
}

/// The rule for one cell: a living cell dies when its neighbour count is
/// below `lower` or above `upper`; a dead cell comes alive when the count is
/// exactly `live`; otherwise the cell keeps its state.
pub open spec fn next_cell(alive: bool, n: int, live: int, lower: int, upper: int) -> bool {
    if alive {
        lower <= n <= upper
    } else {
        n == live
    }
}

/// The next generation, computed from `c` alone.
pub open spec fn next_generation(
    c: Seq<Seq<bool>>,
    w: int,
    h: int,
    live: int,
    lower: int,
    upper: int,
) -> Seq<Seq<bool>> {
    Seq::new(
        w as nat,
        |x: int|
            Seq::new(
                h as nat,
                |y: int| next_cell(c[x][y], neighbor_count(c, w, h, x, y), live, lower, upper),
            ),
    )
}

/// A grid of `w` by `h` dead cells.
pub open spec fn dead_grid(w: int, h: int) -> Seq<Seq<bool>> {
    Seq::new(w as nat, |x: int| Seq::new(h as nat, |y: int| false))
}

/// No cell of the grid is alive.
pub open spec fn all_dead(c: Seq<Seq<bool>>, w: int, h: int) -> bool {
    forall|x: int, y: int| in_bounds(w, h, x, y) ==> !#[trigger] c[x][y]
}

/// `c` with the cell at `(x, y)` flipped.
pub open spec fn toggled(c: Seq<Seq<bool>>, x: int, y: int) -> Seq<Seq<bool>> {
    c.update(x, c[x].update(y, !c[x][y]))
}

/// `(i, j)` comes before `(x, y)` in drawing order: row by row, and left to
/// right within a row.
pub open spec fn precedes(i: int, j: int, x: int, y: int) -> bool {
    j < y || (j == y && i < x)
}

/// Every entry of `r` is a living cell of the grid, and the entries come in
/// strictly increasing drawing order.
pub open spec fn lists_only_live_in_order(
    r: Seq<(usize, usize)>,
    c: Seq<Seq<bool>>,
    w: int,
    h: int,
) -> bool {
    &&& forall|k: int|
        0 <= k < r.len() ==> in_bounds(w, h, (#[trigger] r[k]).0 as int, r[k].1 as int)
            && c[r[k].0 as int][r[k].1 as int]
    &&& forall|k: int, j: int|
        0 <= k < j < r.len() ==> precedes(
            (#[trigger] r[k]).0 as int,
            r[k].1 as int,
            (#[trigger] r[j]).0 as int,
            r[j].1 as int,
        )
}

/// Every living cell that comes before `(x, y)` in drawing order is an
/// entry of `r`.
pub open spec fn lists_live_before(
    r: Seq<(usize, usize)>,
    c: Seq<Seq<bool>>,
    w: int,
    h: int,
    x: int,
    y: int,
) -> bool {
    forall|i: int, j: int|
        in_bounds(w, h, i, j) && precedes(i, j, x, y) && #[trigger] c[i][j] ==> exists|k: int|
            0 <= k < r.len() && #[trigger] r[k] == (i as usize, j as usize)
}

/// `r` lists every living cell of `c` exactly once, in drawing order, and
/// nothing else.
pub open spec fn lists_live_cells(
    r: Seq<(usize, usize)>,
    c: Seq<Seq<bool>>,
    w: int,
    h: int,
) -> bool {
    &&& lists_only_live_in_order(r, c, w, h)
    &&& forall|x: int, y: int|
        in_bounds(w, h, x, y) && #[trigger] c[x][y] ==> exists|k: int|
            0 <= k < r.len() && #[trigger] r[k] == (x as usize, y as usize)
}

} // verus!
