//! Immutable simulation parameters, validated once at construction.
//!
//! All magnitudes are fixed-point micro-units (see `fixed`), except the
//! three kernel normalization coefficients, which are plain integers: a
//! coefficient `k` weighs kernels whose arguments are micro-unit values,
//! and the kernel formulas divide the scale back out.  Invalid
//! configurations are rejected here, so they never reach a step.

use vstd::prelude::*;
use crate::fixed::{fits, sfx, tdiv, tdiv_i128, FX_ONE};

verus! {

/// Largest admitted domain extent (micro-units): keeps squared distances
/// well inside the wide intermediate range.
pub open spec fn max_extent() -> int {
    1000000000000000
}

/// Largest admitted smoothing length (micro-units): keeps its cached
/// fixed-point square representable.
pub open spec fn max_smoothing() -> int {
    1000000000000
}

/// Why a configuration was rejected.
#[derive(Clone, Copy, PartialEq, Eq, Structural, Debug)]
pub enum ConfigError {
    /// The particle radius is zero or negative.
    NonPositiveRadius,
    /// The timestep is zero or negative.
    NonPositiveTimestep,
    /// The particle mass is zero or negative.
    NonPositiveMass,
    /// The smoothing length is zero, negative, or above `max_smoothing`.
    BadSmoothing,
    /// A domain extent is smaller than a particle diameter or above
    /// `max_extent`.
    BadDomain,
    /// The boundary damping factor is not in `[-1, 0]` (fixed-point).
    BadDamping,
    /// The gravitational acceleration is not representable.
    BadGravity,
    /// A density, pressure, viscosity, or kernel coefficient is negative.
    NegativeCoefficient,
    /// An explicit particle lies outside the domain or carries an
    /// unrepresentable velocity component.
    ParticleOutOfDomain,
}

/// The immutable configuration: geometry, physical constants, and the
/// cached kernel data.  Fields are read-only after `new`.
#[derive(Clone, Copy, PartialEq, Eq, Structural, Debug)]
pub struct Params {
    /// Particle radius (micro).
    pub radius: i64,
    /// Smoothing length, the density-kernel cutoff (micro).
    pub h: i64,
    /// Cached fixed-point square of the smoothing length.
    pub h2: i64,
    /// Particle mass (micro), uniform over the particle set.
    pub mass: i64,
    /// Rest density (micro).
    pub rest_density: i64,
    /// Stiffness (gas) constant of the equation of state (micro).
    pub stiffness: i64,
    /// Viscosity coefficient (micro).
    pub viscosity: i64,
    /// Gravitational acceleration along the y axis (micro, signed).
    pub gravity: i64,
    /// Boundary damping factor (micro, in `[-1, 0]`).
    pub damping: i64,
    /// Timestep (micro).
    pub dt: i64,
    /// Domain width (micro).
    pub width: i64,
    /// Domain height (micro).
    pub height: i64,
    /// Density-kernel normalization coefficient (plain integer).
    pub poly6_k: i64,
    /// Pressure-kernel normalization coefficient (plain integer).
    pub spiky_k: i64,
    /// Viscosity-kernel normalization coefficient (plain integer).
    pub visc_k: i64,
}

impl Params {
    /// A well-formed configuration: what `new` establishes and every
    /// simulation operation relies on.
    pub open spec fn wf(self) -> bool {
        &&& 1 <= self.radius
        &&& 1 <= self.dt
        &&& 1 <= self.mass
        &&& 1 <= self.h <= max_smoothing()
        &&& self.h2 == tdiv(self.h * self.h, sfx())
        &&& 2 * self.radius <= self.width <= max_extent()
        &&& 2 * self.radius <= self.height <= max_extent()
        &&& -sfx() <= self.damping <= 0
        &&& fits(self.gravity as int)
        &&& 0 <= self.rest_density
        &&& 0 <= self.stiffness
        &&& 0 <= self.viscosity
        &&& 0 <= self.poly6_k
        &&& 0 <= self.spiky_k
        &&& 0 <= self.visc_k
    }

    /// The validation verdict, in the order `new` checks: `None` means the
    /// configuration is accepted.
    pub open spec fn check_s(
        radius: i64,
        h: i64,
        mass: i64,
        rest_density: i64,
        stiffness: i64,
        viscosity: i64,
        gravity: i64,
        damping: i64,
        dt: i64,
        width: i64,
        height: i64,
        poly6_k: i64,
        spiky_k: i64,
        visc_k: i64,
    ) -> Option<ConfigError> {
        if radius <= 0 {
            Some(ConfigError::NonPositiveRadius)
        } else if dt <= 0 {
            Some(ConfigError::NonPositiveTimestep)
        } else if mass <= 0 {
            Some(ConfigError::NonPositiveMass)
        } else if h <= 0 || h > max_smoothing() {
            Some(ConfigError::BadSmoothing)
        } else if width < 2 * radius || width > max_extent() || height < 2 * radius
            || height > max_extent() {
            Some(ConfigError::BadDomain)
        } else if damping < -sfx() || damping > 0 {
            Some(ConfigError::BadDamping)
        } else if !fits(gravity as int) {
            Some(ConfigError::BadGravity)
        } else if rest_density < 0 || stiffness < 0 || viscosity < 0 || poly6_k < 0
            || spiky_k < 0 || visc_k < 0 {
            Some(ConfigError::NegativeCoefficient)
        } else {
            None
        }
    }

    /// The stock configuration of the unit-square scene: radius `0.005`,
    /// smoothing length `0.02` (four radii), mass `0.02`, rest density
    /// `1000`, stiffness `2000`, viscosity `3000`, gravity `-9.8`, damping
    /// `-0.5`, timestep `0.001`, and the conventional two-dimensional
    /// kernel normalizations over those cutoffs.
    pub fn default_config() -> (r: Params)
        ensures
            r.wf(),
            r.radius == 5000,
            r.h == 20000,
            r.mass == 20000,
            r.rest_density == 1000000000,
            r.stiffness == 2000000000,
            r.viscosity == 3000000000,
            r.gravity == -9800000,
            r.damping == -500000,
            r.dt == 1000,
            r.width == 1000000,
            r.height == 1000000,
            r.poly6_k == 49735919716217,
            r.spiky_k == 95492965855,
            r.visc_k == 127323954474,
    {
        let pr = Params::new(
            5000,
            20000,
            20000,
            1000000000,
            2000000000,
            3000000000,
            -9800000,
            -500000,
            1000,
            1000000,
            1000000,
            49735919716217,
            95492965855,
            127323954474,
        );
        match pr {
            Ok(p) => p,
            Err(_) => vstd::pervasive::unreached(),
        }
    }

    /// Validates a configuration and caches the kernel square of the
    /// smoothing length.  Accepts exactly the configurations whose
    /// `check_s` verdict is `None`, and stores every argument unchanged.
    pub fn new(
        radius: i64,
        h: i64,
        mass: i64,
        rest_density: i64,
        stiffness: i64,
        viscosity: i64,
        gravity: i64,
        damping: i64,
        dt: i64,
        width: i64,
        height: i64,
        poly6_k: i64,
        spiky_k: i64,
        visc_k: i64,
    ) -> (r: Result<Params, ConfigError>)
        ensures
            r is Ok <==> Self::check_s(
                radius, h, mass, rest_density, stiffness, viscosity, gravity, damping, dt,
                width, height, poly6_k, spiky_k, visc_k,
            ) is None,
            r matches Err(e) ==> Self::check_s(
                radius, h, mass, rest_density, stiffness, viscosity, gravity, damping, dt,
                width, height, poly6_k, spiky_k, visc_k,
            ) == Some(e),
            r matches Ok(p) ==> {
                &&& p.wf()
                &&& p.radius == radius
                &&& p.h == h
                &&& p.h2 == tdiv(h * h, sfx())
                &&& p.mass == mass
                &&& p.rest_density == rest_density
                &&& p.stiffness == stiffness
                &&& p.viscosity == viscosity
                &&& p.gravity == gravity
                &&& p.damping == damping
                &&& p.dt == dt
                &&& p.width == width
                &&& p.height == height
                &&& p.poly6_k == poly6_k
                &&& p.spiky_k == spiky_k
                &&& p.visc_k == visc_k
            },
    {
        if radius <= 0 {
            return Err(ConfigError::NonPositiveRadius);
        }
        if dt <= 0 {
            return Err(ConfigError::NonPositiveTimestep);
        }
        if mass <= 0 {
            return Err(ConfigError::NonPositiveMass);
        }
        if h <= 0 || h > 1000000000000 {
            return Err(ConfigError::BadSmoothing);
        }
        if (width as i128) < 2 * (radius as i128) || width > 1000000000000000
            || (height as i128) < 2 * (radius as i128) || height > 1000000000000000 {
            return Err(ConfigError::BadDomain);
        }
        if damping < -FX_ONE || damping > 0 {
            return Err(ConfigError::BadDamping);
        }
        if gravity == i64::MIN {
            return Err(ConfigError::BadGravity);
        }
        if rest_density < 0 || stiffness < 0 || viscosity < 0 || poly6_k < 0 || spiky_k < 0
            || visc_k < 0 {
            return Err(ConfigError::NegativeCoefficient);
        }
        proof {
            assert(1 * 1 <= h as int * h as int <= max_smoothing() * max_smoothing())
                by (nonlinear_arith)
                requires
                    1 <= h as int <= max_smoothing(),
            ;
        }
        let hw: i128 = (h as i128) * (h as i128);
        let h2w: i128 = tdiv_i128(hw, FX_ONE as i128);
        proof {
            vstd::arithmetic::div_mod::lemma_div_is_ordered(
                hw as int,
                max_smoothing() * max_smoothing(),
                sfx(),
            );
        }
        Ok(Params {
            radius,
            h,
            h2: h2w as i64,
            mass,
            rest_density,
            stiffness,
            viscosity,
            gravity,
            damping,
            dt,
            width,
            height,
            poly6_k,
            spiky_k,
            visc_k,
        })
    }
}

} // verus!
