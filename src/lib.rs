//! Bookkeeping and sequencing for a fixed-timestep rigid-body flight simulation.
//!
//! The numerical model (integration, aerodynamics, guidance) works on
//! floating-point vectors and lives with the driver program; this library holds
//! the parts that decide what happens and when: the per-tick store of
//! force/moment contributions that the integration step consumes and clears,
//! and the order in which a driver runs the stages of each tick.
mod accumulate;
mod schedule;

pub use accumulate::Accumulator;
pub use schedule::{Stage, TickDriver};
