//! Run configuration and the per-step timing it reports.
use vstd::prelude::*;
use crate::cell::SimError;
use crate::density::Density;
use crate::simulation::cell_count;

verus! {

/// What a run is asked to do: grid edge, number of steps, tree density.
#[derive(Clone, Copy, PartialEq, Eq, Debug, Structural)]
pub struct RunConfig {
    pub size: usize,
    pub steps: usize,
    pub density: Density,
}

impl RunConfig {
    /// A configuration that a run can start from.
    pub open spec fn wf(&self) -> bool {
        &&& self.size > 0
        &&& self.size * self.size <= usize::MAX
        &&& self.steps > 0
        &&& self.density.wf()
    }

    /// Checks a configuration before a run: the edge must be positive with
    /// `size * size` cells fitting in a `usize`, the step count positive, and
    /// the density ratio within `[0, 1]`. The first failing check, in that
    /// order, gives the error.
    pub fn new(size: usize, steps: usize, density_num: u64, density_den: u64) -> (r: Result<
        RunConfig,
        SimError,
    >)
        ensures
            size == 0 ==> r == Err::<RunConfig, SimError>(SimError::ZeroSize),
            size > 0 && size * size > usize::MAX ==> r == Err::<RunConfig, SimError>(
                SimError::GridTooLarge,
            ),
            size > 0 && size * size <= usize::MAX && steps == 0 ==> r == Err::<
                RunConfig,
                SimError,
            >(SimError::ZeroSteps),
            size > 0 && size * size <= usize::MAX && steps > 0 && (density_den == 0
                || density_num > density_den) ==> r == Err::<RunConfig, SimError>(
                SimError::DensityOutOfRange,
            ),
            size > 0 && size * size <= usize::MAX && steps > 0 && 0 < density_den && density_num
                <= density_den ==> (match r {
                Ok(c) => c.wf() && c.size == size && c.steps == steps && c.density.numer()
                    == density_num && c.density.denom() == density_den,
                Err(_) => false,
            }),
    {
        match cell_count(size) {
            Ok(_) => {},
            Err(e) => return Err(e),
        }
        if steps == 0 {
            return Err(SimError::ZeroSteps);
        }
        match Density::from_ratio(density_num, density_den) {
            Ok(density) => Ok(RunConfig { size, steps, density }),
            Err(e) => Err(e),
        }
    }
}

/// The average duration of one step, in nanoseconds, of a run of `steps`
/// steps that took `total_nanos` in all (rounded down).
pub fn per_step_nanos(total_nanos: u128, steps: u64) -> (r: u128)
    requires
        steps >= 1,
    ensures
        r == total_nanos / (steps as u128),
        r * steps <= total_nanos < (r + 1) * steps,
{
    let avg = total_nanos / (steps as u128);
    proof {
        vstd::arithmetic::div_mod::lemma_fundamental_div_mod(total_nanos as int, steps as int);
        assert(avg * steps <= total_nanos < (avg + 1) * steps) by (nonlinear_arith)
            requires
                total_nanos as int == steps as int * avg as int + (total_nanos as int) % (steps as int),
                0 <= (total_nanos as int) % (steps as int) < steps as int,
        ;
    }
    avg
}

} // verus!
