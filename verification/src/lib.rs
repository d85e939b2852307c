//! Ballistic trajectory simulation over fixed-point arithmetic.
//!
//! The crate models a fired projectile under gravity, wind and aerodynamic
//! drag. Every physical quantity is carried as a fixed-point integer with six
//! decimal places (see [`fixed::SCALE`]), so the whole simulation is exact
//! integer arithmetic and every update is specified and proved down to the
//! rounding of each division.
//!
//! The two components are the drag model ([`drag`]) and the trajectory
//! integrator ([`integrator`]), which advances a [`integrator::Projectile`]
//! one time step at a time with semi-implicit Euler integration.

pub mod drag;
pub mod fixed;
pub mod integrator;
pub mod vector;

pub use drag::drag_magnitude;
pub use integrator::{Projectile, SimError, SimulationParameters};
pub use vector::Vec3;
