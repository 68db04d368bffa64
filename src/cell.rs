use vstd::prelude::*;

verus! {

/// The state of one cell of the forest.
#[derive(Clone, Copy, PartialEq, Eq, Debug, Structural)]
pub enum CellState {
    Empty,
    Tree,
    Fire,
}

/// Why a simulation or its configuration could not be built.
#[derive(Clone, Copy, PartialEq, Eq, Debug, Structural)]
pub enum SimError {
    /// The grid edge length is zero.
    ZeroSize,
    /// `size * size` cells do not fit in a `usize`.
    GridTooLarge,
    /// The number of cells given is not `size * size`.
    CellCountMismatch,
    /// A density ratio with a zero denominator or above one.
    DensityOutOfRange,
    /// The number of steps is zero.
    ZeroSteps,
}

impl CellState {
    /// Whether this cell is burning.
    pub fn is_fire(&self) -> (r: bool)
        ensures
            r == (*self == CellState::Fire),
    {
        match self {
            CellState::Fire => true,
            _ => false,
        }
    }
}

} // verus!
