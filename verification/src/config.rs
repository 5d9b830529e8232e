//! Named configuration constants of the simulation kernel.

use vstd::prelude::*;

verus! {

/// Raw steps per world unit: every mass, coordinate, velocity and time
/// delta is carried as a signed integer counting micro-units.
pub const SCALE: i128 = 1_000_000;

/// Gravitational scale constant: the force numerator of a pair is
/// `G_SCALE * mass_a * mass_b * dt`.
pub const G_SCALE: i128 = 10_000;

/// Minimum-separation guard, in raw units (one hundredth of a world
/// unit): a pair whose separation does not exceed it contributes no
/// velocity delta that tick.
pub const MIN_DIST: i128 = 10_000;

/// Largest admissible mass, in raw units (ten thousand world units).
pub const MASS_LIMIT: i128 = 10_000_000_000;

/// Largest admissible coordinate magnitude, in raw units (one hundred
/// thousand world units).
pub const POS_LIMIT: i128 = 100_000_000_000;

/// Largest admissible time delta, in raw units (ten seconds).
pub const DT_LIMIT: i128 = 10_000_000;

/// Largest admissible velocity-component magnitude at entry to a tick,
/// in raw units.
pub const VEL_LIMIT: i128 = 1_000_000_000_000_000_000_000_000_000_000;

/// Largest number of bodies one tick accepts.
pub const MAX_BODIES: usize = 10_000;

/// Bound on either component of the velocity delta a single pair can
/// contribute: with masses, positions and the time delta within their
/// limits and the separation above the guard, a component never reaches
/// this value.
pub const PAIR_DELTA_LIMIT: i128 = 100_000_000_000_000_000_000_000;

} // verus!
