//! The per-particle record and the exported rendering transform.
//!
//! A particle persists only its position and velocity, in fixed-point
//! micro-units.  Density, pressure and force are recomputed from scratch
//! every step and never stored across steps.

use vstd::prelude::*;
use crate::params::Params;

verus! {

/// One particle: position and velocity, micro-units.
#[derive(Clone, Copy, PartialEq, Eq, Structural, Debug)]
pub struct Particle {
    /// Position, x component.
    pub x: i64,
    /// Position, y component.
    pub y: i64,
    /// Velocity, x component.
    pub vx: i64,
    /// Velocity, y component.
    pub vy: i64,
}

impl Particle {
    /// A particle at rest at the given position.
    pub fn new(x: i64, y: i64) -> (r: Particle)
        ensures
            r == (Particle { x, y, vx: 0, vy: 0 }),
    {
        Particle { x, y, vx: 0, vy: 0 }
    }

    /// The position lies within the domain, one radius from every wall.
    pub open spec fn contained(self, pp: Params) -> bool {
        &&& pp.radius <= self.x <= pp.width - pp.radius
        &&& pp.radius <= self.y <= pp.height - pp.radius
    }

}

/// The per-particle rendering transform the driver exports: a position in
/// the renderer's coordinate convention, a fixed (identity) orientation,
/// and a per-axis scale.  All components are micro-units.
#[derive(Clone, Copy, PartialEq, Eq, Structural, Debug)]
pub struct Transform {
    /// Render-space position, x component.
    pub x: i64,
    /// Render-space position, y component.
    pub y: i64,
    /// Orientation angle; always zero (identity rotation).
    pub angle: i64,
    /// Scale, x component.
    pub sx: i64,
    /// Scale, y component.
    pub sy: i64,
}

/// The transform a particle exports: the domain `[0, extent]` is mapped to
/// render space `[-extent, extent]` per axis, the orientation is identity,
/// and the scale is one particle diameter per axis.
pub open spec fn transform_s(pp: Params, p: Particle) -> Transform {
    Transform {
        x: (2 * p.x - pp.width) as i64,
        y: (2 * p.y - pp.height) as i64,
        angle: 0,
        sx: (2 * pp.radius) as i64,
        sy: (2 * pp.radius) as i64,
    }
}

} // verus!
