//! The simulation driver: owns the particle set, advances it one step at a
//! time against a frozen snapshot (double buffering), and exports the
//! per-particle rendering transforms.

use vstd::prelude::*;
use crate::dynamics::{integrate_at, integrate_s, state_ok};
use crate::fixed::{fits, tdiv, tdiv64};
use crate::params::{ConfigError, Params};
use crate::particle::{transform_s, Particle, Transform};
use crate::rng::random_jitter;

verus! {

/// The largest magnitude of the random jitter applied to the grid layout's
/// x coordinates (micro-units).
pub const JITTER: i64 = 20000;

/// A position clamped into `[radius, limit - radius]`.
pub open spec fn clamp_s(radius: int, limit: int, pos: int) -> int {
    if pos < radius {
        radius
    } else if pos > limit - radius {
        limit - radius
    } else {
        pos
    }
}

/// The x coordinate of grid column `gi` before jitter: a quarter of the
/// width in, then one `width / 2 / n` stride per column.
pub open spec fn grid_base_x(pp: Params, n: int, gi: int) -> int
    recommends
        n >= 1,
{
    tdiv(pp.width as int, 4) + gi * tdiv(tdiv(pp.width as int, 2), n)
}

/// The y coordinate of grid row `gj`: the same layout over the height.
pub open spec fn grid_base_y(pp: Params, n: int, gj: int) -> int
    recommends
        n >= 1,
{
    tdiv(pp.height as int, 4) + gj * tdiv(tdiv(pp.height as int, 2), n)
}

/// The particle at grid slot `k` of an `n`-column layout, given the jitter
/// applied to its x coordinate: both coordinates clamped into the domain,
/// at rest.
pub open spec fn grid_slot_s(pp: Params, n: int, jit: int, k: int) -> Particle
    recommends
        n >= 1,
        0 <= k < n * n,
{
    Particle {
        x: clamp_s(pp.radius as int, pp.width as int, grid_base_x(pp, n, k / n) + jit) as i64,
        y: clamp_s(pp.radius as int, pp.height as int, grid_base_y(pp, n, k % n)) as i64,
        vx: 0,
        vy: 0,
    }
}

/// The particle sequence is the `n`-by-`n` grid laid out with the given
/// jitter sequence, every jitter within the stock magnitude.
pub open spec fn is_jittered_layout(pp: Params, n: int, js: Seq<i64>, ps: Seq<Particle>) -> bool {
    &&& js.len() == n * n
    &&& (forall|u: int| 0 <= u < n * n ==> -(JITTER as int) <= #[trigger] js[u] < JITTER as int)
    &&& (forall|k: int| 0 <= k < n * n ==> #[trigger] ps[k] == grid_slot_s(pp, n, js[k] as int, k))
}

/// A jittered grid layout: the grid slots hold the particles of some
/// jitter sequence within the stock magnitude.
pub open spec fn jittered_grid_ok(pp: Params, n: int, ps: Seq<Particle>) -> bool {
    exists|js: Seq<i64>| #[trigger] is_jittered_layout(pp, n, js, ps)
}

/// A stock seed particle: the given position clamped into the domain, at
/// rest.
pub open spec fn seed_particle_s(pp: Params, x: int, y: int) -> Particle {
    Particle {
        x: clamp_s(pp.radius as int, pp.width as int, x) as i64,
        y: clamp_s(pp.radius as int, pp.height as int, y) as i64,
        vx: 0,
        vy: 0,
    }
}

/// Clamps a wide position into the domain, exactly as `clamp_s`.
fn clamp_pos(radius: i64, limit: i64, pos: i128) -> (r: i64)
    requires
        1 <= radius,
        2 * radius <= limit <= 1000000000000000,
    ensures
        r as int == clamp_s(radius as int, limit as int, pos as int),
        radius <= r <= limit - radius,
{
    if pos < radius as i128 {
        radius
    } else if pos > (limit - radius) as i128 {
        limit - radius
    } else {
        pos as i64
    }
}

/// Why a step was rejected.
#[derive(Clone, Copy, PartialEq, Eq, Structural, Debug)]
pub enum SimError {
    /// Some quantity left the representable range during the step: the
    /// fixed-point analogue of a non-finite value.  The state is left
    /// unchanged; the host decides whether to reset or exit.
    Instability,
}

/// One full step as a function of the frozen pre-step state: every
/// particle integrated against the same snapshot, or `None` if any
/// particle's update is not representable.
pub open spec fn step_s(pp: Params, ps: Seq<Particle>) -> Option<Seq<Particle>> {
    if forall|j: int| 0 <= j < ps.len() ==> integrate_s(pp, ps, j) is Some {
        Some(Seq::new(ps.len(), |j: int| integrate_s(pp, ps, j)->0))
    } else {
        None
    }
}

/// The state after `n` accepted steps; `None` once any step is rejected.
pub open spec fn run_s(pp: Params, ps: Seq<Particle>, n: nat) -> Option<Seq<Particle>>
    decreases n,
{
    if n == 0 {
        Some(ps)
    } else {
        match run_s(pp, ps, (n - 1) as nat) {
            None => None,
            Some(prev) => step_s(pp, prev),
        }
    }
}

/// The simulation: an immutable configuration and the particle set, which
/// only `timestep` mutates.
pub struct Sph {
    /// The configuration, fixed at construction.
    pub params: Params,
    /// The particles, index-stable for the simulation's lifetime.
    pub particles: Vec<Particle>,
}

impl Sph {
    /// The driver's invariant: a well-formed configuration, every particle
    /// inside the domain, and representable velocities.
    pub open spec fn wf(self) -> bool {
        &&& self.params.wf()
        &&& state_ok(self.params, self.particles@)
    }

    /// Builds a simulation from an explicit particle list, rejecting any
    /// particle outside the domain or with an unrepresentable velocity.
    pub fn from_particles(params: Params, particles: Vec<Particle>) -> (r: Result<
        Sph,
        ConfigError,
    >)
        requires
            params.wf(),
        ensures
            r is Ok <==> state_ok(params, particles@),
            r matches Ok(s) ==> s.params == params && s.particles@ == particles@ && s.wf(),
            r matches Err(e) ==> e == ConfigError::ParticleOutOfDomain,
    {
        let n: usize = particles.len();
        let mut i: usize = 0;
        while i < n
            invariant
                n == particles.len(),
                i <= n,
                params.wf(),
                forall|j: int|
                    0 <= j < i ==> (#[trigger] particles@[j]).contained(params) && fits(
                        particles@[j].vx as int,
                    ) && fits(particles@[j].vy as int),
            decreases n - i,
        {
            let p: &Particle = &particles[i];
            if !(params.radius <= p.x && p.x <= params.width - params.radius && params.radius
                <= p.y && p.y <= params.height - params.radius && p.vx > i64::MIN && p.vy
                > i64::MIN) {
                return Err(ConfigError::ParticleOutOfDomain);
            }
            i = i + 1;
        }
        Ok(Sph { params, particles })
    }

    /// Builds the standard initial layout from an explicit jitter
    /// sequence: an `n`-by-`n` grid over the central half of the domain,
    /// each x coordinate offset by its jitter and clamped into the domain,
    /// followed by the two stock seed particles.  Everything starts at
    /// rest.
    pub fn with_jitter(params: Params, number_instances_per_row: i32, jitters: &Vec<i64>) -> (r:
        Sph)
        requires
            params.wf(),
            number_instances_per_row >= 1,
            jitters@.len() == number_instances_per_row as int * number_instances_per_row as int,
        ensures
            r.wf(),
            r.params == params,
            r.particles@.len() == jitters@.len() + 2,
            forall|k: int|
                0 <= k < jitters@.len() ==> #[trigger] r.particles@[k] == grid_slot_s(
                    params,
                    number_instances_per_row as int,
                    jitters@[k] as int,
                    k,
                ),
            r.particles@[jitters@.len() as int] == seed_particle_s(params, 375000, 500000),
            r.particles@[jitters@.len() as int + 1] == seed_particle_s(params, 525000, 500000),
    {
        let n: usize = number_instances_per_row as usize;
        let n64: i64 = number_instances_per_row as i64;
        let nn: usize = jitters.len();
        let quarter_x: i64 = tdiv64(params.width, 4);
        let dist_x: i64 = tdiv64(tdiv64(params.width, 2), n64);
        let quarter_y: i64 = tdiv64(params.height, 4);
        let dist_y: i64 = tdiv64(tdiv64(params.height, 2), n64);
        let mut parts: Vec<Particle> = Vec::new();
        let mut gi: usize = 0;
        while gi < n
            invariant
                params.wf(),
                1 <= number_instances_per_row,
                n == number_instances_per_row as usize,
                n <= 2147483647,
                n64 == n as i64,
                1 <= n,
                quarter_x == tdiv(params.width as int, 4),
                dist_x == tdiv(tdiv(params.width as int, 2), n as int),
                quarter_y == tdiv(params.height as int, 4),
                dist_y == tdiv(tdiv(params.height as int, 2), n as int),
                0 <= quarter_x <= 1000000000000000,
                0 <= dist_x <= 1000000000000000,
                0 <= quarter_y <= 1000000000000000,
                0 <= dist_y <= 1000000000000000,
                jitters@.len() == n * n,
                n * n == nn,
                gi <= n,
                parts@.len() == gi * n,
                forall|k: int|
                    0 <= k < parts@.len() ==> #[trigger] parts@[k] == grid_slot_s(
                        params,
                        n as int,
                        jitters@[k] as int,
                        k,
                    ),
                forall|k: int|
                    0 <= k < parts@.len() ==> (#[trigger] parts@[k]).contained(params)
                        && parts@[k].vx == 0 && parts@[k].vy == 0,
            decreases n - gi,
        {
            let mut gj: usize = 0;
            proof {
                assert(gi * n + n <= n * n) by (nonlinear_arith)
                    requires
                        gi < n,
                ;
            }
            while gj < n
                invariant
                    params.wf(),
                    1 <= number_instances_per_row,
                    n == number_instances_per_row as usize,
                    n <= 2147483647,
                    n64 == n as i64,
                    1 <= n,
                    gi < n,
                    quarter_x == tdiv(params.width as int, 4),
                    dist_x == tdiv(tdiv(params.width as int, 2), n as int),
                    quarter_y == tdiv(params.height as int, 4),
                    dist_y == tdiv(tdiv(params.height as int, 2), n as int),
                    0 <= quarter_x <= 1000000000000000,
                    0 <= dist_x <= 1000000000000000,
                    0 <= quarter_y <= 1000000000000000,
                    0 <= dist_y <= 1000000000000000,
                    jitters@.len() == n * n,
                    n * n == nn,
                    gi * n + n <= n * n,
                    gj <= n,
                    parts@.len() == gi * n + gj,
                    forall|k: int|
                        0 <= k < parts@.len() ==> #[trigger] parts@[k] == grid_slot_s(
                            params,
                            n as int,
                            jitters@[k] as int,
                            k,
                        ),
                    forall|k: int|
                        0 <= k < parts@.len() ==> (#[trigger] parts@[k]).contained(params)
                            && parts@[k].vx == 0 && parts@[k].vy == 0,
                decreases n - gj,
            {
                proof {
                    assert(gi * n + gj < gi * n + n);
                    assert((gi as int) * (dist_x as int) <= 2147483648 * 1000000000000000
                        && (gi as int) * (dist_x as int) >= 0
                        && (gj as int) * (dist_y as int) <= 2147483648 * 1000000000000000
                        && (gj as int) * (dist_y as int) >= 0) by (nonlinear_arith)
                        requires
                            0 <= gi as int <= 2147483648,
                            0 <= gj as int <= 2147483648,
                            0 <= dist_x as int <= 1000000000000000,
                            0 <= dist_y as int <= 1000000000000000,
                    ;
                }
                let k: usize = gi * n + gj;
                let jit: i64 = jitters[k];
                let bx: i128 = (quarter_x as i128) + (gi as i128) * (dist_x as i128) + (
                jit as i128);
                let by: i128 = (quarter_y as i128) + (gj as i128) * (dist_y as i128);
                let x: i64 = clamp_pos(params.radius, params.width, bx);
                let y: i64 = clamp_pos(params.radius, params.height, by);
                let p = Particle { x, y, vx: 0, vy: 0 };
                proof {
                    vstd::arithmetic::div_mod::lemma_fundamental_div_mod_converse_div(
                        k as int,
                        n as int,
                        gi as int,
                        gj as int,
                    );
                    vstd::arithmetic::div_mod::lemma_fundamental_div_mod_converse_mod(
                        k as int,
                        n as int,
                        gi as int,
                        gj as int,
                    );
                    assert(bx as int == grid_base_x(params, n as int, k as int / n as int)
                        + jit as int);
                    assert(by as int == grid_base_y(params, n as int, k as int % n as int));
                }
                proof {
                    assert(p == grid_slot_s(params, n as int, jit as int, k as int));
                }
                parts.push(p);
                gj = gj + 1;
            }
            proof {
                assert((gi + 1) * n == gi * n + n) by (nonlinear_arith);
                assert(gi + 1 < n ==> (gi + 1) * n + n <= n * n) by (nonlinear_arith);
            }
            gi = gi + 1;
        }
        let sa: i64 = clamp_pos(params.radius, params.width, 375000);
        let sb: i64 = clamp_pos(params.radius, params.height, 500000);
        parts.push(Particle { x: sa, y: sb, vx: 0, vy: 0 });
        let sc: i64 = clamp_pos(params.radius, params.width, 525000);
        let sd: i64 = clamp_pos(params.radius, params.height, 500000);
        parts.push(Particle { x: sc, y: sd, vx: 0, vy: 0 });
        Sph { params, particles: parts }
    }

    /// Builds the standard initial layout with random jitter: as
    /// `with_jitter`, with each offset drawn uniformly from
    /// `[-JITTER, JITTER)`.  A row count below one yields only the two
    /// stock seed particles.
    pub fn new(params: Params, number_instances_per_row: i32) -> (r: Sph)
        requires
            params.wf(),
            number_instances_per_row as int * number_instances_per_row as int + 2
                <= usize::MAX as int,
        ensures
            r.wf(),
            r.params == params,
            number_instances_per_row >= 1 ==> {
                let n = number_instances_per_row as int;
                &&& r.particles@.len() == n * n + 2
                &&& jittered_grid_ok(params, n, r.particles@)
            },
            number_instances_per_row < 1 ==> r.particles@.len() == 2,
            r.particles@[r.particles@.len() - 2] == seed_particle_s(params, 375000, 500000),
            r.particles@[r.particles@.len() - 1] == seed_particle_s(params, 525000, 500000),
    {
        if number_instances_per_row < 1 {
            let mut parts: Vec<Particle> = Vec::new();
            let sa: i64 = clamp_pos(params.radius, params.width, 375000);
            let sb: i64 = clamp_pos(params.radius, params.height, 500000);
            parts.push(Particle { x: sa, y: sb, vx: 0, vy: 0 });
            let sc: i64 = clamp_pos(params.radius, params.width, 525000);
            let sd: i64 = clamp_pos(params.radius, params.height, 500000);
            parts.push(Particle { x: sc, y: sd, vx: 0, vy: 0 });
            return Sph { params, particles: parts };
        }
        let n: usize = number_instances_per_row as usize;
        proof {
            assert(n as int * n as int == number_instances_per_row as int
                * number_instances_per_row as int);
        }
        let total: usize = n * n;
        let mut jitters: Vec<i64> = Vec::new();
        let mut t: usize = 0;
        while t < total
            invariant
                t <= total,
                jitters@.len() == t,
                forall|u: int|
                    0 <= u < t ==> -(JITTER as int) <= #[trigger] jitters@[u] < JITTER as int,
            decreases total - t,
        {
            let j: i64 = random_jitter(JITTER);
            jitters.push(j);
            t = t + 1;
        }
        let r = Sph::with_jitter(params, number_instances_per_row, &jitters);
        proof {
            let n_ = number_instances_per_row as int;
            assert(total as int == n_ * n_);
            assert(jitters@.len() == n_ * n_);
            assert(r.particles@.len() == n_ * n_ + 2);
            assert(is_jittered_layout(params, n_, jitters@, r.particles@));
            assert(jittered_grid_ok(params, n_, r.particles@));
        }
        r
    }

    /// Computes the next state of one particle from the current snapshot
    /// without mutating anything; the step applies this to every index.
    pub fn integrate(&self, index: usize) -> (r: Result<Particle, SimError>)
        requires
            self.wf(),
            index < self.particles.len(),
        ensures
            r matches Ok(p) ==> integrate_s(self.params, self.particles@, index as int) == Some(
                p,
            ),
            r is Err ==> integrate_s(self.params, self.particles@, index as int) is None && r
                == Err::<Particle, SimError>(SimError::Instability),
    {
        match integrate_at(&self.params, &self.particles, index) {
            None => Err(SimError::Instability),
            Some(p) => Ok(p),
        }
    }

    /// Advances the simulation one step: solves forces for every particle
    /// against the frozen pre-step snapshot, integrates, then swaps in the
    /// new buffer.  On instability the state is left exactly as it was and
    /// the step reports the error instead.
    pub fn timestep(&mut self) -> (r: Result<(), SimError>)
        requires
            old(self).wf(),
        ensures
            final(self).params == old(self).params,
            final(self).wf(),
            final(self).particles@.len() == old(self).particles@.len(),
            r is Ok <==> step_s(old(self).params, old(self).particles@) is Some,
            r is Ok ==> final(self).particles@ == step_s(
                old(self).params,
                old(self).particles@,
            )->0,
            r is Err ==> final(self).particles@ == old(self).particles@ && r == Err::<
                (),
                SimError,
            >(SimError::Instability),
    {
        let n: usize = self.particles.len();
        let mut out: Vec<Particle> = Vec::new();
        let mut i: usize = 0;
        while i < n
            invariant
                self.wf(),
                n == self.particles.len(),
                i <= n,
                out@.len() == i,
                forall|k: int|
                    0 <= k < i ==> (#[trigger] out@[k]).contained(self.params) && fits(
                        out@[k].vx as int,
                    ) && fits(out@[k].vy as int),
                forall|k: int|
                    0 <= k < i ==> #[trigger] integrate_s(self.params, self.particles@, k)
                        == Some(out@[k]),
            decreases n - i,
        {
            match integrate_at(&self.params, &self.particles, i) {
                None => {
                    return Err(SimError::Instability);
                },
                Some(p) => {
                    out.push(p);
                },
            }
            i = i + 1;
        }
        proof {
            let ghost pp = self.params;
            let ghost ps = self.particles@;
            assert(forall|j: int| 0 <= j < ps.len() ==> integrate_s(pp, ps, j) is Some);
            assert(out@ =~= Seq::new(ps.len(), |j: int| integrate_s(pp, ps, j)->0));
        }
        self.particles = out;
        Ok(())
    }

    /// Exports the rendering transforms of the current state: a pure
    /// projection, one transform per particle, in index order.
    pub fn instances(&self) -> (r: Vec<Transform>)
        requires
            self.wf(),
        ensures
            r@.len() == self.particles@.len(),
            forall|k: int|
                0 <= k < r@.len() ==> r@[k] == transform_s(
                    self.params,
                    #[trigger] self.particles@[k],
                ),
    {
        let n: usize = self.particles.len();
        let mut out: Vec<Transform> = Vec::new();
        let mut i: usize = 0;
        while i < n
            invariant
                self.wf(),
                n == self.particles.len(),
                i <= n,
                out@.len() == i,
                forall|k: int|
                    0 <= k < i ==> out@[k] == transform_s(
                        self.params,
                        #[trigger] self.particles@[k],
                    ),
            decreases n - i,
        {
            let p: &Particle = &self.particles[i];
            let t = Transform {
                x: 2 * p.x - self.params.width,
                y: 2 * p.y - self.params.height,
                angle: 0,
                sx: 2 * self.params.radius,
                sy: 2 * self.params.radius,
            };
            out.push(t);
            i = i + 1;
        }
        out
    }
}

} // verus!
