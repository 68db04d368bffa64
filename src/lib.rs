//! A forest-fire cellular automaton on a square grid: three cell states,
//! four-neighbour spread, and a data-parallel synchronous step.
pub mod cell;
pub mod config;
pub mod grid;
pub mod density;
pub mod simulation;

pub use cell::{CellState, SimError};
pub use config::{per_step_nanos, RunConfig};
pub use density::Density;
pub use simulation::Simulation;
