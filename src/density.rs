//! Initial tree density as an exact ratio, and the per-cell draw against it.
use vstd::prelude::*;
use rand::Rng;
use crate::cell::{CellState, SimError};

verus! {

#[verifier::external_type_specification]
#[verifier::external_body]
pub struct ExThreadRng(rand::rngs::ThreadRng);

/// Relies on rand::thread_rng: it hands out the calling thread's generator.
/// Nothing is promised of the values it will produce.
pub assume_specification[ rand::thread_rng ]() -> rand::rngs::ThreadRng;

/// Relies on rand::Rng::gen_range over the integer range `0..bound`: the
/// value lies in that range (it panics on an empty range, excluded here).
#[verifier::external_body]
pub(crate) fn draw_below(rng: &mut rand::rngs::ThreadRng, bound: u64) -> (r: u64)
    requires
        0 < bound,
    ensures
        r < bound,
{
    rng.gen_range(0..bound)
}

/// The probability that a cell starts as a tree, held as `num / den`.
/// A cell is planted when a draw uniform over `0..den` falls below `num`.
#[derive(Clone, Copy, PartialEq, Eq, Debug, Structural)]
pub struct Density {
    num: u64,
    den: u64,
}

/// The state a cell starts in, given the draw made for it.
pub open spec fn planted_cell(numer: nat, draw: nat) -> CellState {
    if draw < numer {
        CellState::Tree
    } else {
        CellState::Empty
    }
}

/// A state that some draw can give at density `d`.
pub open spec fn may_be_planted(d: Density, c: CellState) -> bool {
    (c == CellState::Tree && d.numer() > 0) || (c == CellState::Empty && d.numer() < d.denom())
}

impl Density {
    pub closed spec fn numer(&self) -> nat {
        self.num as nat
    }

    pub closed spec fn denom(&self) -> nat {
        self.den as nat
    }

    /// A ratio in `[0, 1]` with a positive denominator.
    pub open spec fn wf(&self) -> bool {
        0 < self.denom() && self.numer() <= self.denom()
    }

    /// Builds the density `num / den`; rejects a zero denominator and a
    /// ratio above one.
    pub fn from_ratio(num: u64, den: u64) -> (r: Result<Density, SimError>)
        ensures
            den == 0 || num > den ==> r == Err::<Density, SimError>(SimError::DensityOutOfRange),
            0 < den && num <= den ==> (match r {
                Ok(d) => d.wf() && d.numer() == num && d.denom() == den,
                Err(_) => false,
            }),
    {
        if den == 0 || num > den {
            Err(SimError::DensityOutOfRange)
        } else {
            Ok(Density { num, den })
        }
    }

    pub fn numerator(&self) -> (r: u64)
        ensures
            r == self.numer(),
    {
        self.num
    }

    pub fn denominator(&self) -> (r: u64)
        ensures
            r == self.denom(),
    {
        self.den
    }

    /// The state of a cell whose draw over `0..den` came out as `draw`.
    pub fn cell_for_draw(&self, draw: u64) -> (r: CellState)
        ensures
            r == planted_cell(self.numer(), draw as nat),
    {
        if draw < self.num {
            CellState::Tree
        } else {
            CellState::Empty
        }
    }

    /// Draws the starting state of one cell.
    pub(crate) fn draw_cell(&self, rng: &mut rand::rngs::ThreadRng) -> (r: CellState)
        requires
            self.wf(),
        ensures
            may_be_planted(*self, r),
    {
        let draw = draw_below(rng, self.den);
        self.cell_for_draw(draw)
    }
}

} // verus!
