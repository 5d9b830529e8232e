//! A layered gravitational n-body simulation kernel.
//!
//! Bodies carry a mass, a position, a velocity and a pair of layer masks.
//! Once per tick the integrator sweeps every unordered pair of bodies,
//! asks the mutual-consent layer rule whether the pair interacts, and if
//! so accumulates equal and opposite inverse-square velocity deltas on
//! both bodies, guarded by a minimum separation below which a pair
//! contributes nothing.
//!
//! All quantities are fixed-point integers: a raw value counts
//! micro-units, i.e. `config::SCALE` raw steps per world unit, so the
//! whole kernel is exact integer arithmetic with floor division.

pub mod body;
pub mod config;
pub mod integrator;
pub mod laws;
pub mod layers;
pub mod math;
