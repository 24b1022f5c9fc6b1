//! Magnetic-pendulum simulation core.
//!
//! A point mass hangs from a fixed pivot on an inextensible tether and moves
//! under gravity, quadratic air drag and inverse-square attraction from a set
//! of fixed magnets. The integrator advances one particle by fixed micro-steps;
//! the batch field runs a whole grid of independent particles and classifies
//! every cell by the magnet its pendulum settles nearest to.
//!
//! All quantities are fixed-point numbers: an `i64` holding the world value
//! times [`fixed::SCALE`]. Every arithmetic step is exact integer work, so a
//! run is reproducible bit for bit on any machine.

pub mod batch;
pub mod fixed;
pub mod integrator;
pub mod sim;
pub mod vector;
