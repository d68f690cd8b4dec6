use sph::dynamics::{density, force_at, neighbors, pressure};
use sph::params::{ConfigError, Params};
use sph::particle::{Particle, Transform};
use sph::sim::Sph;

fn default_params() -> Params {
    Params::default_config()
}

fn params_with_gravity(g: i64) -> Params {
    let d = Params::default_config();
    Params::new(
        d.radius,
        d.h,
        d.mass,
        d.rest_density,
        d.stiffness,
        d.viscosity,
        g,
        d.damping,
        d.dt,
        d.width,
        d.height,
        d.poly6_k,
        d.spiky_k,
        d.visc_k,
    )
    .unwrap()
}

#[test]
fn density_self_term_is_positive() {
    // A single isolated particle: density is exactly its own kernel-weighted
    // mass, about 0.02 * 3183 = 63.66 in micro-units.
    let pp = default_params();
    let parts = vec![Particle::new(500000, 500000)];
    let rho = density(&pp, &parts, 0).unwrap();
    assert_eq!(rho, 63661976);
    assert!(rho > 0);
    // A far-away second particle (beyond the cutoff) contributes nothing.
    let parts2 = vec![Particle::new(500000, 500000), Particle::new(700000, 500000)];
    assert_eq!(density(&pp, &parts2, 0).unwrap(), rho);
}

#[test]
fn zero_force_at_cutoff() {
    // Two particles exactly one interaction radius (2R = 0.01) apart, at
    // rest, gravity off: the kernels vanish at the cutoff, so the net force
    // is exactly zero and a step leaves the state unchanged.
    let pp = params_with_gravity(0);
    let parts = vec![Particle::new(500000, 500000), Particle::new(510000, 500000)];
    for i in 0..2 {
        let rho = density(&pp, &parts, i).unwrap();
        let press = pressure(&pp, rho).unwrap();
        assert_eq!(force_at(&pp, &parts, i, rho, press).unwrap(), (0, 0));
    }
    let mut sim = Sph::from_particles(pp, parts.clone()).unwrap();
    sim.timestep().unwrap();
    assert_eq!(sim.particles, parts);
}

#[test]
fn gravity_only_scenario() {
    // Two particles at (0.375, 0.5) and (0.525, 0.5): the distance 0.15 is
    // far beyond the cutoff, so only gravity acts.  After one step each
    // vertical velocity has dropped by about gravity * dt = -0.0098 and the
    // horizontal position is unchanged.
    let pp = default_params();
    let parts = vec![Particle::new(375000, 500000), Particle::new(525000, 500000)];
    let mut sim = Sph::from_particles(pp, parts).unwrap();
    sim.timestep().unwrap();
    assert_eq!(
        sim.particles,
        vec![
            Particle { x: 375000, y: 499991, vx: 0, vy: -9799 },
            Particle { x: 525000, y: 499991, vx: 0, vy: -9799 },
        ]
    );
}

#[test]
fn boundary_bounce_damps_and_reverses() {
    // A particle at (R, 0.5) moving left at speed 1 crosses the wall during
    // integration; it is clamped back to x = R and rebounds with half the
    // speed: velocity.x becomes +0.5.
    let pp = default_params();
    let parts = vec![Particle { x: 5000, y: 500000, vx: -1000000, vy: 0 }];
    let mut sim = Sph::from_particles(pp, parts).unwrap();
    sim.timestep().unwrap();
    assert_eq!(
        sim.particles,
        vec![Particle { x: 5000, y: 499991, vx: 500000, vy: -9799 }]
    );
}

#[test]
fn integrate_matches_step() {
    // `integrate` computes one particle's next state from the snapshot
    // without mutating; it must agree with what `timestep` then installs.
    let pp = default_params();
    let parts = vec![Particle::new(375000, 500000), Particle::new(525000, 500000)];
    let mut sim = Sph::from_particles(pp, parts).unwrap();
    let first = sim.integrate(0).unwrap();
    let second = sim.integrate(1).unwrap();
    sim.timestep().unwrap();
    assert_eq!(sim.particles, vec![first, second]);
}

#[test]
fn containment_over_many_steps() {
    // Boundary containment: wherever the particles start, every completed
    // step leaves each position at least one radius from every wall.
    let pp = default_params();
    let mut sim = Sph::new(pp, 3);
    for _ in 0..20 {
        sim.timestep().unwrap();
        for p in sim.particles.iter() {
            assert!(pp.radius <= p.x && p.x <= pp.width - pp.radius);
            assert!(pp.radius <= p.y && p.y <= pp.height - pp.radius);
        }
    }
}

#[test]
fn determinism_ten_steps() {
    // A fixed layout (explicit jitter) and fixed parameters: ten steps give
    // bit-identical results on two separate runs.
    let pp = default_params();
    let jit = vec![7i64; 4];
    let mut a = Sph::with_jitter(pp, 2, &jit);
    let mut b = Sph::with_jitter(pp, 2, &jit);
    assert_eq!(a.particles, b.particles);
    for _ in 0..10 {
        a.timestep().unwrap();
        b.timestep().unwrap();
        assert_eq!(a.particles, b.particles);
    }
    // Exact values, pinned: the run is a pure function of the start state.
    assert_eq!(a.particles[0], Particle { x: 250007, y: 249467, vx: 0, vy: -97990 });
    assert_eq!(a.particles[5], Particle { x: 525000, y: 499467, vx: 0, vy: -97990 });
}

#[test]
fn grid_layout_and_jitter_in_range() {
    // The jittered grid: y coordinates are exact; each x sits within the
    // jitter band around its column base, never at the excluded upper bound.
    let pp = default_params();
    let sim = Sph::new(pp, 2);
    assert_eq!(sim.particles.len(), 6);
    let bases_x = [250000i64, 250000, 500000, 500000];
    let bases_y = [250000i64, 500000, 250000, 500000];
    for k in 0..4 {
        let p = &sim.particles[k];
        assert_eq!(p.y, bases_y[k]);
        assert!(bases_x[k] - 20000 <= p.x && p.x < bases_x[k] + 20000);
        assert_eq!((p.vx, p.vy), (0, 0));
    }
    assert_eq!(sim.particles[4], Particle::new(375000, 500000));
    assert_eq!(sim.particles[5], Particle::new(525000, 500000));
}

#[test]
fn neighbor_query() {
    // Neighbors are the other indices strictly within the cutoff, in
    // increasing index order; the cutoff itself is excluded.
    let pp = default_params();
    let parts = vec![
        Particle::new(500000, 500000),
        Particle::new(505000, 500000),
        Particle::new(510000, 500000),
        Particle::new(500000, 503000),
    ];
    let c = 2 * pp.radius;
    assert_eq!(neighbors(&pp, &parts, 0, c), vec![1, 3]);
    assert_eq!(neighbors(&pp, &parts, 1, c), vec![0, 2, 3]);
    assert_eq!(neighbors(&pp, &parts, 2, c), vec![1]);
    assert_eq!(neighbors(&pp, &parts, 0, 0), Vec::<usize>::new());
}

#[test]
fn transforms_export() {
    // The exported transforms map the unit domain to [-1, 1], keep identity
    // rotation, and scale by one particle diameter.
    let pp = default_params();
    let parts = vec![Particle::new(375000, 500000), Particle::new(525000, 500000)];
    let sim = Sph::from_particles(pp, parts).unwrap();
    let ts = sim.instances();
    assert_eq!(
        ts,
        vec![
            Transform { x: -250000, y: 0, angle: 0, sx: 10000, sy: 10000 },
            Transform { x: 50000, y: 0, angle: 0, sx: 10000, sy: 10000 },
        ]
    );
}

#[test]
fn config_rejections() {
    let d = Params::default_config();
    let mk = |radius: i64, h: i64, mass: i64, dt: i64, width: i64, damping: i64, gravity: i64, rest: i64| {
        Params::new(
            radius, h, mass, rest, d.stiffness, d.viscosity, gravity, damping, dt, width,
            d.height, d.poly6_k, d.spiky_k, d.visc_k,
        )
    };
    assert_eq!(
        mk(0, d.h, d.mass, d.dt, d.width, d.damping, d.gravity, d.rest_density),
        Err(ConfigError::NonPositiveRadius)
    );
    assert_eq!(
        mk(d.radius, d.h, d.mass, 0, d.width, d.damping, d.gravity, d.rest_density),
        Err(ConfigError::NonPositiveTimestep)
    );
    assert_eq!(
        mk(d.radius, d.h, -1, d.dt, d.width, d.damping, d.gravity, d.rest_density),
        Err(ConfigError::NonPositiveMass)
    );
    assert_eq!(
        mk(d.radius, 0, d.mass, d.dt, d.width, d.damping, d.gravity, d.rest_density),
        Err(ConfigError::BadSmoothing)
    );
    assert_eq!(
        mk(d.radius, d.h, d.mass, d.dt, 9000, d.damping, d.gravity, d.rest_density),
        Err(ConfigError::BadDomain)
    );
    assert_eq!(
        mk(d.radius, d.h, d.mass, d.dt, d.width, 1, d.gravity, d.rest_density),
        Err(ConfigError::BadDamping)
    );
    assert_eq!(
        mk(d.radius, d.h, d.mass, d.dt, d.width, d.damping, i64::MIN, d.rest_density),
        Err(ConfigError::BadGravity)
    );
    assert_eq!(
        mk(d.radius, d.h, d.mass, d.dt, d.width, d.damping, d.gravity, -1),
        Err(ConfigError::NegativeCoefficient)
    );
}

#[test]
fn out_of_domain_particle_rejected() {
    let pp = default_params();
    let parts = vec![Particle::new(0, 500000)];
    assert_eq!(
        Sph::from_particles(pp, parts).err().unwrap(),
        ConfigError::ParticleOutOfDomain
    );
}

#[test]
fn instability_is_reported_and_state_kept() {
    // An extreme configuration (maximal kernel coefficient, heavy particles,
    // huge smoothing length) drives the density past the representable
    // range: the step reports instability and leaves the state untouched.
    let pp = Params::new(
        1,
        1000000000000,
        1000000000000,
        0,
        0,
        0,
        0,
        0,
        1,
        1000000000000000,
        1000000000000000,
        i64::MAX,
        0,
        0,
    )
    .unwrap();
    let parts = vec![Particle::new(500, 500)];
    let mut sim = Sph::from_particles(pp, parts.clone()).unwrap();
    assert_eq!(sim.timestep(), Err(sph::sim::SimError::Instability));
    assert_eq!(sim.particles, parts);
}
