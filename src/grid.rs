//! The mathematical model of a grid: cells in row-major order, the
//! four-neighbour rule, and facts about indices.
use vstd::prelude::*;
use crate::cell::CellState;

verus! {

/// Linear index of cell `(r, c)` on a grid of edge `n`.
pub open spec fn index_of(n: int, r: int, c: int) -> int {
    r * n + c
}

/// Linear index of the cell set on fire at construction.
pub open spec fn center_index(n: int) -> int {
    n * n / 2 + n / 2
}

/// Whether `(r, c)` lies inside a grid of edge `n`.
pub open spec fn in_bounds(n: int, r: int, c: int) -> bool {
    0 <= r < n && 0 <= c < n
}

/// Whether `(r, c)` lies inside the grid and is burning.
pub open spec fn burning_at(cells: Seq<CellState>, n: int, r: int, c: int) -> bool {
    in_bounds(n, r, c) && cells[index_of(n, r, c)] == CellState::Fire
}

/// Whether one of the in-bounds up, down, left or right neighbours of the
/// cell at linear index `idx` is burning.
pub open spec fn has_burning_neighbor(cells: Seq<CellState>, n: int, idx: int) -> bool {
    let r = idx / n;
    let c = idx % n;
    burning_at(cells, n, r - 1, c) || burning_at(cells, n, r + 1, c)
        || burning_at(cells, n, r, c - 1) || burning_at(cells, n, r, c + 1)
}

/// The state of the cell at `idx` after one step.
pub open spec fn next_cell(cells: Seq<CellState>, n: int, idx: int) -> CellState {
    match cells[idx] {
        CellState::Fire => CellState::Empty,
        CellState::Empty => CellState::Empty,
        CellState::Tree => if has_burning_neighbor(cells, n, idx) {
            CellState::Fire
        } else {
            CellState::Tree
        },
    }
}

/// The whole grid after one synchronous step.
pub open spec fn step_cells(cells: Seq<CellState>, n: int) -> Seq<CellState> {
    Seq::new(cells.len(), |i: int| next_cell(cells, n, i))
}

/// The grid after `k` steps.
pub open spec fn run_cells(cells: Seq<CellState>, n: int, k: nat) -> Seq<CellState>
    decreases k,
{
    if k == 0 {
        cells
    } else {
        step_cells(run_cells(cells, n, (k - 1) as nat), n)
    }
}

/// Number of positions among the four neighbours of `(r, c)` that lie
/// inside the grid.
pub open spec fn neighbor_count(n: int, r: int, c: int) -> nat {
    (if in_bounds(n, r - 1, c) { 1nat } else { 0nat })
        + (if in_bounds(n, r + 1, c) { 1nat } else { 0nat })
        + (if in_bounds(n, r, c - 1) { 1nat } else { 0nat })
        + (if in_bounds(n, r, c + 1) { 1nat } else { 0nat })
}

/// Whether `(r2, c2)` is one step up, down, left or right of `(r, c)`.
pub open spec fn adjacent(r: int, c: int, r2: int, c2: int) -> bool {
    (r2 == r - 1 && c2 == c) || (r2 == r + 1 && c2 == c) || (r2 == r && c2 == c - 1) || (r2
        == r && c2 == c + 1)
}

/// A cell's neighbours count only where they lie inside the grid: the cell
/// has a burning neighbour exactly when some in-bounds position adjacent to
/// it holds fire. Positions past an edge never contribute.
pub proof fn lemma_burning_neighbor_in_grid(cells: Seq<CellState>, n: int, idx: int)
    requires
        n > 0,
        0 <= idx < n * n,
    ensures
        has_burning_neighbor(cells, n, idx) <==> exists|r2: int, c2: int|
            #[trigger] adjacent(idx / n, idx % n, r2, c2) && in_bounds(n, r2, c2) && cells[index_of(
                n,
                r2,
                c2,
            )] == CellState::Fire,
{
    let r = idx / n;
    let c = idx % n;
    if has_burning_neighbor(cells, n, idx) {
        if burning_at(cells, n, r - 1, c) {
            assert(adjacent(r, c, r - 1, c));
        } else if burning_at(cells, n, r + 1, c) {
            assert(adjacent(r, c, r + 1, c));
        } else if burning_at(cells, n, r, c - 1) {
            assert(adjacent(r, c, r, c - 1));
        } else {
            assert(adjacent(r, c, r, c + 1));
        }
    }
    if exists|r2: int, c2: int|
        #[trigger] adjacent(r, c, r2, c2) && in_bounds(n, r2, c2) && cells[index_of(n, r2, c2)]
            == CellState::Fire {
        let (r2, c2) = choose|r2: int, c2: int|
            #[trigger] adjacent(r, c, r2, c2) && in_bounds(n, r2, c2) && cells[index_of(
                n,
                r2,
                c2,
            )] == CellState::Fire;
        assert(burning_at(cells, n, r2, c2));
    }
}

/// A tree in the corner `(0, 0)` catches fire when the cell to its right,
/// `(0, 1)`, or the cell below it, `(1, 0)`, is burning.
pub proof fn lemma_corner_ignites(cells: Seq<CellState>, n: int)
    requires
        n >= 2,
        cells.len() == n * n,
        cells[0] == CellState::Tree,
        cells[index_of(n, 0, 1)] == CellState::Fire || cells[index_of(n, 1, 0)]
            == CellState::Fire,
    ensures
        step_cells(cells, n)[0] == CellState::Fire,
{
    assert(n * n >= 2 * n) by (nonlinear_arith)
        requires
            n >= 2,
    ;
    assert(0int / n == 0 && 0int % n == 0);
    assert(burning_at(cells, n, 0, 1) || burning_at(cells, n, 1, 0));
}

/// A cell has at most two in-bounds neighbours in a corner, three on an
/// edge and four inside; the counts are exact once the grid is wide
/// enough for the cell to have that many.
pub proof fn lemma_neighbor_count(n: int, r: int, c: int)
    requires
        in_bounds(n, r, c),
    ensures
        neighbor_count(n, r, c) <= 4,
        (r == 0 || r == n - 1) && (c == 0 || c == n - 1) ==> neighbor_count(n, r, c) <= 2,
        (r == 0 || r == n - 1 || c == 0 || c == n - 1) ==> neighbor_count(n, r, c) <= 3,
        n >= 2 && (r == 0 || r == n - 1) && (c == 0 || c == n - 1) ==> neighbor_count(n, r, c)
            == 2,
        n >= 3 && (r == 0 || r == n - 1 || c == 0 || c == n - 1) && !((r == 0 || r == n - 1) && (
        c == 0 || c == n - 1)) ==> neighbor_count(n, r, c) == 3,
        0 < r < n - 1 && 0 < c < n - 1 ==> neighbor_count(n, r, c) == 4,
{
}

/// An in-bounds position has an index below `n * n`.
pub proof fn lemma_index_in_grid(n: int, r: int, c: int)
    requires
        in_bounds(n, r, c),
    ensures
        0 <= index_of(n, r, c) < n * n,
{
    assert(0 <= r * n + c < n * n) by (nonlinear_arith)
        requires
            0 <= r < n,
            0 <= c < n,
    ;
}

/// Every index below `n * n` is the index of its own row and column.
pub proof fn lemma_row_col(n: int, idx: int)
    requires
        n > 0,
        0 <= idx < n * n,
    ensures
        in_bounds(n, idx / n, idx % n),
        index_of(n, idx / n, idx % n) == idx,
{
    vstd::arithmetic::div_mod::lemma_fundamental_div_mod(idx, n);
    let r = idx / n;
    let c = idx % n;
    assert(0 <= c < n);
    assert(r * n == n * r) by (nonlinear_arith);
    assert(0 <= r < n) by (nonlinear_arith)
        requires
            idx == n * r + c,
            0 <= c < n,
            0 <= idx < n * n,
            n > 0,
    ;
}

/// The ignition point lies inside every non-empty grid.
pub proof fn lemma_center_in_grid(n: int)
    requires
        n > 0,
    ensures
        0 <= center_index(n) < n * n,
{
    assert(0 <= n * n / 2 + n / 2 < n * n) by (nonlinear_arith)
        requires
            n > 0,
    ;
}

} // verus!
