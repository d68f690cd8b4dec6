//! A verified two-dimensional smoothed-particle-hydrodynamics (SPH) core.
//!
//! Particle state, smoothing kernels, the force solver, the symplectic
//! integrator with boundary reflection, and the simulation driver all work
//! on exact fixed-point arithmetic (micro-units held in `i64`), so every
//! step is deterministic and fully specified.  Arithmetic that leaves the
//! representable range surfaces as a simulation-instability error instead
//! of corrupting state.

pub mod dynamics;
pub mod fixed;
pub mod kernels;
pub mod laws;
pub mod params;
pub mod particle;
mod rng;
pub mod sim;
