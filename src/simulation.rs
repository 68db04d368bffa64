//! The simulation: a square grid of cells and its parallel step.
use vstd::prelude::*;
use rayon::prelude::{IntoParallelIterator, ParallelIterator};
use crate::cell::{CellState, SimError};
use crate::density::{may_be_planted, Density};
use crate::grid::{
    burning_at, center_index, has_burning_neighbor, index_of, lemma_center_in_grid,
    lemma_index_in_grid, lemma_row_col, next_cell, run_cells, step_cells,
};

verus! {

/// Relies on rayon: `(0..n).into_par_iter().map(f).collect()` yields
/// `f(0), ..., f(n - 1)` in index order, each computed on some worker.
#[verifier::external_body]
fn par_next_cells(sim: &Simulation, n: usize) -> (r: Vec<CellState>)
    requires
        sim.wf(),
        n == sim@.len(),
    ensures
        r@.len() == n,
        forall|i: int| 0 <= i < n ==> r@[i] == next_cell(sim@, sim.spec_size(), i),
{
    (0..n).into_par_iter().map(|idx| sim.next_state_at(idx)).collect()
}

/// Checks an edge length and returns the number of cells, `size * size`.
pub fn cell_count(size: usize) -> (r: Result<usize, SimError>)
    ensures
        size == 0 ==> r == Err::<usize, SimError>(SimError::ZeroSize),
        size > 0 && size * size > usize::MAX ==> r == Err::<usize, SimError>(
            SimError::GridTooLarge,
        ),
        size > 0 && size * size <= usize::MAX ==> r == Ok::<usize, SimError>(
            (size * size) as usize,
        ),
{
    if size == 0 {
        return Err(SimError::ZeroSize);
    }
    match size.checked_mul(size) {
        Some(total) => Ok(total),
        None => Err(SimError::GridTooLarge),
    }
}

/// A forest on a `size` by `size` grid, cells in row-major order.
pub struct Simulation {
    grid: Vec<CellState>,
    size: usize,
}

impl View for Simulation {
    type V = Seq<CellState>;

    closed spec fn view(&self) -> Seq<CellState> {
        self.grid@
    }
}

impl Simulation {
    /// The edge length of the grid.
    pub closed spec fn spec_size(&self) -> int {
        self.size as int
    }

    /// A non-empty square grid whose cell count fits in a `usize`.
    pub open spec fn wf(&self) -> bool {
        &&& self.spec_size() > 0
        &&& self.spec_size() * self.spec_size() <= usize::MAX
        &&& self@.len() == self.spec_size() * self.spec_size()
    }

    /// A grid of `size * size` cells, each planted with a tree or left empty
    /// by an independent draw at `density`, with the centre cell on fire.
    pub fn new(size: usize, density: Density) -> (r: Result<Simulation, SimError>)
        requires
            density.wf(),
        ensures
            size == 0 ==> r == Err::<Simulation, SimError>(SimError::ZeroSize),
            size > 0 && size * size > usize::MAX ==> r == Err::<Simulation, SimError>(
                SimError::GridTooLarge,
            ),
            size > 0 && size * size <= usize::MAX ==> (match r {
                Ok(s) => {
                    &&& s.wf()
                    &&& s.spec_size() == size
                    &&& s@.len() == size * size
                    &&& s@[center_index(size as int)] == CellState::Fire
                    &&& forall|i: int|
                        0 <= i < s@.len() && i != center_index(size as int) ==> may_be_planted(
                            density,
                            #[trigger] s@[i],
                        )
                    &&& density.numer() == 0 ==> forall|i: int|
                        0 <= i < s@.len() && i != center_index(size as int) ==> #[trigger] s@[i]
                            == CellState::Empty
                    &&& density.numer() == density.denom() ==> forall|i: int|
                        0 <= i < s@.len() && i != center_index(size as int) ==> #[trigger] s@[i]
                            == CellState::Tree
                },
                Err(_) => false,
            }),
    {
        let total = match cell_count(size) {
            Ok(t) => t,
            Err(e) => return Err(e),
        };
        let mut rng = rand::thread_rng();
        let mut grid: Vec<CellState> = Vec::with_capacity(total);
        let mut i: usize = 0;
        while i < total
            invariant
                density.wf(),
                i <= total,
                grid@.len() == i,
                forall|j: int| 0 <= j < i ==> may_be_planted(density, #[trigger] grid@[j]),
            decreases total - i,
        {
            let cell = density.draw_cell(&mut rng);
            grid.push(cell);
            i = i + 1;
        }
        proof {
            lemma_center_in_grid(size as int);
        }
        let center = total / 2 + size / 2;
        grid[center] = CellState::Fire;
        Ok(Simulation { grid, size })
    }

    /// A simulation over the given cells, row-major, on a `size` by `size` grid.
    pub fn from_cells(size: usize, cells: Vec<CellState>) -> (r: Result<Simulation, SimError>)
        ensures
            size == 0 ==> r == Err::<Simulation, SimError>(SimError::ZeroSize),
            size > 0 && size * size > usize::MAX ==> r == Err::<Simulation, SimError>(
                SimError::GridTooLarge,
            ),
            size > 0 && size * size <= usize::MAX && cells@.len() != size * size ==> r == Err::<
                Simulation,
                SimError,
            >(SimError::CellCountMismatch),
            size > 0 && size * size <= usize::MAX && cells@.len() == size * size ==> (match r {
                Ok(s) => s.wf() && s.spec_size() == size && s@ == cells@,
                Err(_) => false,
            }),
    {
        let total = match cell_count(size) {
            Ok(t) => t,
            Err(e) => return Err(e),
        };
        if cells.len() != total {
            return Err(SimError::CellCountMismatch);
        }
        Ok(Simulation { grid: cells, size })
    }

    /// The edge length of the grid.
    pub fn size(&self) -> (r: usize)
        ensures
            r == self.spec_size(),
    {
        self.size
    }

    /// The cells, row-major.
    pub fn cells(&self) -> (r: &Vec<CellState>)
        ensures
            r@ == self@,
    {
        &self.grid
    }

    /// Linear index of the cell in row `r`, column `c`.
    pub fn get_index(&self, r: usize, c: usize) -> (idx: usize)
        requires
            self.wf(),
            r < self.spec_size(),
            c < self.spec_size(),
        ensures
            idx == index_of(self.spec_size(), r as int, c as int),
            idx < self@.len(),
    {
        proof {
            lemma_index_in_grid(self.size as int, r as int, c as int);
        }
        r * self.size + c
    }

    /// Whether the in-bounds cell `(r, c)` is burning.
    fn burning(&self, r: usize, c: usize) -> (b: bool)
        requires
            self.wf(),
            r < self.spec_size(),
            c < self.spec_size(),
        ensures
            b == burning_at(self@, self.spec_size(), r as int, c as int),
    {
        let idx = self.get_index(r, c);
        self.grid[idx].is_fire()
    }

    /// The state of cell `idx` after one step: fire burns out, empty stays
    /// empty, and a tree catches fire when a neighbour above, below, left or
    /// right of it is burning.
    pub fn next_state_at(&self, idx: usize) -> (r: CellState)
        requires
            self.wf(),
            idx < self@.len(),
        ensures
            r == next_cell(self@, self.spec_size(), idx as int),
    {
        let size = self.size;
        let r = idx / size;
        let c = idx % size;
        proof {
            lemma_row_col(size as int, idx as int);
        }
        match self.grid[idx] {
            CellState::Fire => CellState::Empty,
            CellState::Empty => CellState::Empty,
            CellState::Tree => {
                let on_fire = (r > 0 && self.burning(r - 1, c)) || (r + 1 < size && self.burning(
                    r + 1,
                    c,
                )) || (c > 0 && self.burning(r, c - 1)) || (c + 1 < size && self.burning(
                    r,
                    c + 1,
                ));
                if on_fire {
                    CellState::Fire
                } else {
                    CellState::Tree
                }
            },
        }
    }

    /// The grid after one synchronous step, every cell computed in parallel
    /// from the current cells alone; `self` is left as it is.
    pub fn step_parallel(&self) -> (r: Vec<CellState>)
        requires
            self.wf(),
        ensures
            r@ == step_cells(self@, self.spec_size()),
            forall|i: int|
                0 <= i < self@.len() && self@[i] == CellState::Fire ==> #[trigger] r@[i]
                    == CellState::Empty,
            forall|i: int|
                0 <= i < self@.len() && self@[i] == CellState::Empty ==> #[trigger] r@[i]
                    == CellState::Empty,
            forall|i: int|
                0 <= i < self@.len() && self@[i] == CellState::Tree ==> (#[trigger] r@[i]
                    == if has_burning_neighbor(self@, self.spec_size(), i) {
                    CellState::Fire
                } else {
                    CellState::Tree
                }),
    {
        let n = self.grid.len();
        let next = par_next_cells(self, n);
        assert(next@ =~= step_cells(self@, self.spec_size()));
        next
    }

    /// Replaces the grid by its next state.
    pub fn advance(&mut self)
        requires
            old(self).wf(),
        ensures
            final(self).wf(),
            final(self).spec_size() == old(self).spec_size(),
            final(self)@ == step_cells(old(self)@, old(self).spec_size()),
    {
        self.grid = self.step_parallel();
    }

    /// Applies `steps` steps in sequence.
    pub fn run(&mut self, steps: usize)
        requires
            old(self).wf(),
        ensures
            final(self).wf(),
            final(self).spec_size() == old(self).spec_size(),
            final(self)@ == run_cells(old(self)@, old(self).spec_size(), steps as nat),
    {
        let mut k: usize = 0;
        while k < steps
            invariant
                self.wf(),
                k <= steps,
                self.spec_size() == old(self).spec_size(),
                self@ == run_cells(old(self)@, old(self).spec_size(), k as nat),
            decreases steps - k,
        {
            self.advance();
            k = k + 1;
        }
    }
}

} // verus!
