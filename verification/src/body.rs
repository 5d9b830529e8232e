//! Bodies: a plane vector of raw coordinates and the record the
//! integrator steps — mass, position, velocity and a layer-mask pair.

use vstd::prelude::*;
use crate::config::{MASS_LIMIT, POS_LIMIT, VEL_LIMIT};
use crate::layers::GravityLayers;
use crate::math::abs_val;

verus! {

/// A plane vector in raw micro-units.
#[derive(Clone, Copy, PartialEq, Eq, Structural, Debug)]
pub struct Vec2 {
    pub x: i128,
    pub y: i128,
}

impl Vec2 {
    pub fn new(x: i128, y: i128) -> (r: Vec2)
        ensures
            r.x == x,
            r.y == y,
    {
        Vec2 { x, y }
    }

    /// The origin.
    pub fn zero() -> (r: Vec2)
        ensures
            r.x == 0,
            r.y == 0,
    {
        Vec2 { x: 0, y: 0 }
    }
}

/// One simulated body. The integrator reads mass, position and layers
/// and rewrites the velocity; it never creates or destroys a body.
#[derive(Clone, Copy, PartialEq, Eq, Structural, Debug)]
pub struct Body {
    /// Mass in raw micro-units; positive by construction.
    pub mass: i128,
    /// Position in raw micro-units; advanced by the host, not here.
    pub position: Vec2,
    /// Velocity in raw micro-units per second; the integrator's output.
    pub velocity: Vec2,
    /// The body's layer-mask pair.
    pub layers: GravityLayers,
}

/// Why a body description was rejected at construction time.
#[derive(Clone, Copy, PartialEq, Eq, Structural, Debug)]
pub enum BodyError {
    /// The mass was zero or negative.
    NonPositiveMass,
    /// The mass was beyond `MASS_LIMIT`.
    MassTooLarge,
    /// A position coordinate was beyond `POS_LIMIT` in magnitude.
    PositionOutOfRange,
    /// A velocity component was beyond `VEL_LIMIT` in magnitude.
    VelocityOutOfRange,
}

impl Body {
    /// The construction-time invariant every simulated body carries:
    /// positive bounded mass and bounded position coordinates.
    pub open spec fn is_valid(self) -> bool {
        &&& 0 < self.mass <= MASS_LIMIT
        &&& abs_val(self.position.x as int) <= POS_LIMIT
        &&& abs_val(self.position.y as int) <= POS_LIMIT
    }

    /// Both velocity components are within `VEL_LIMIT`; asked of each
    /// body at entry to a tick.
    pub open spec fn velocity_bounded(self) -> bool {
        &&& abs_val(self.velocity.x as int) <= VEL_LIMIT
        &&& abs_val(self.velocity.y as int) <= VEL_LIMIT
    }

    /// Validates a body description and builds the body. Exactly the
    /// descriptions with positive bounded mass, bounded position and
    /// bounded velocity are accepted; each error names the first field
    /// checked in the order mass, position, velocity that was out of
    /// range.
    pub fn new(mass: i128, position: Vec2, velocity: Vec2, layers: GravityLayers) -> (r: Result<
        Body,
        BodyError,
    >)
        ensures
            r is Ok <==> {
                &&& 0 < mass <= MASS_LIMIT
                &&& abs_val(position.x as int) <= POS_LIMIT
                &&& abs_val(position.y as int) <= POS_LIMIT
                &&& abs_val(velocity.x as int) <= VEL_LIMIT
                &&& abs_val(velocity.y as int) <= VEL_LIMIT
            },
            r matches Ok(b) ==> b == (Body { mass, position, velocity, layers }),
            r matches Ok(b) ==> b.is_valid() && b.velocity_bounded(),
            mass <= 0 ==> r == Err::<Body, BodyError>(BodyError::NonPositiveMass),
            mass > MASS_LIMIT ==> r == Err::<Body, BodyError>(BodyError::MassTooLarge),
            0 < mass <= MASS_LIMIT && (abs_val(position.x as int) > POS_LIMIT || abs_val(
                position.y as int,
            ) > POS_LIMIT) ==> r == Err::<Body, BodyError>(BodyError::PositionOutOfRange),
            0 < mass <= MASS_LIMIT && abs_val(position.x as int) <= POS_LIMIT && abs_val(
                position.y as int,
            ) <= POS_LIMIT && (abs_val(velocity.x as int) > VEL_LIMIT || abs_val(velocity.y as int)
                > VEL_LIMIT) ==> r == Err::<Body, BodyError>(BodyError::VelocityOutOfRange),
    {
        if mass <= 0 {
            Err(BodyError::NonPositiveMass)
        } else if mass > MASS_LIMIT {
            Err(BodyError::MassTooLarge)
        } else if position.x > POS_LIMIT || position.x < -POS_LIMIT || position.y > POS_LIMIT
            || position.y < -POS_LIMIT {
            Err(BodyError::PositionOutOfRange)
        } else if velocity.x > VEL_LIMIT || velocity.x < -VEL_LIMIT || velocity.y > VEL_LIMIT
            || velocity.y < -VEL_LIMIT {
            Err(BodyError::VelocityOutOfRange)
        } else {
            Ok(Body { mass, position, velocity, layers })
        }
    }
}

} // verus!
