//! Metropolis Monte Carlo simulation of the two-dimensional Ising model on a
//! square lattice with periodic (toroidal) boundary conditions.
pub mod lattice;
mod random;
pub mod simulation;
pub mod spin;

pub use lattice::{Lattice, LatticeError};
pub use simulation::{
    metropolis_step, observes_at, uphill_accepted, Acceptance, Event, Phase, Simulation,
    SimulationError,
};
pub use spin::Spin;
