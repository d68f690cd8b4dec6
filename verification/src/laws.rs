//! The library's laws: boundary containment, the single-particle density
//! self-term, zero force at the interaction cutoff, damped boundary
//! rebound, and determinism of the step function.

use vstd::prelude::*;
use crate::dynamics::{
    damp_s, density_s, density_sum_s, density_term_s, dist2_s, force_s, force_sum_s,
    integrate_s, pair_term_s, pressure_s, raw_d2_s, reflect_axis_s, vel_comp_s,
};
use crate::fixed::{
    fits, fx_add, fx_mul, isqrt_s, lemma_isqrt_s_bounds, sfx, tdiv,
};
use crate::kernels::w_poly6_s;
use crate::params::Params;
use crate::particle::Particle;
use crate::sim::{run_s, step_s};

verus! {

/// An accepted per-particle update always lands inside the domain, one
/// radius from every wall.
pub proof fn lemma_integrate_contained(pp: Params, ps: Seq<Particle>, i: int)
    requires
        pp.wf(),
        0 <= i < ps.len(),
        integrate_s(pp, ps, i) is Some,
    ensures
        (integrate_s(pp, ps, i)->0).contained(pp),
{
    let rho = density_s(pp, ps, i)->0;
    let f = force_s(pp, ps, i)->0;
    let vx1 = if rho == 0 {
        ps[i].vx as int
    } else {
        vel_comp_s(pp, f.0, rho, ps[i].vx as int)->0
    };
    let vy1 = if rho == 0 {
        ps[i].vy as int
    } else {
        vel_comp_s(pp, f.1, rho, ps[i].vy as int)->0
    };
    let px1 = fx_add(ps[i].x as int, fx_mul(vx1, pp.dt as int)->0)->0;
    let py1 = fx_add(ps[i].y as int, fx_mul(vy1, pp.dt as int)->0)->0;
    crate::dynamics::lemma_reflect_contained(
        pp.radius as int,
        pp.width as int,
        pp.damping as int,
        px1,
        vx1,
    );
    crate::dynamics::lemma_reflect_contained(
        pp.radius as int,
        pp.height as int,
        pp.damping as int,
        py1,
        vy1,
    );
}

/// Boundary containment: after an accepted step, every particle's position
/// satisfies `radius <= x <= width - radius` and
/// `radius <= y <= height - radius`.
pub proof fn lemma_step_containment(pp: Params, ps: Seq<Particle>, s: Seq<Particle>)
    requires
        pp.wf(),
        step_s(pp, ps) == Some(s),
    ensures
        forall|i: int| 0 <= i < s.len() ==> (#[trigger] s[i]).contained(pp),
{
    assert forall|i: int| 0 <= i < s.len() implies (#[trigger] s[i]).contained(pp) by {
        lemma_integrate_contained(pp, ps, i);
    }
}

/// Every neighbor of an isolated particle is beyond the density cutoff,
/// so each partial density sum reduces to the self term once it is
/// included, and to zero before.
proof fn lemma_density_sum_isolated(pp: Params, ps: Seq<Particle>, i: int, n: nat)
    requires
        pp.wf(),
        0 <= i < ps.len(),
        n <= ps.len(),
        forall|j: int|
            0 <= j < ps.len() && j != i ==> dist2_s(ps[i], #[trigger] ps[j]) >= pp.h2,
    ensures
        density_sum_s(pp, ps, i, n) == if i < n {
            density_term_s(pp, ps, i, i)
        } else {
            Some(0int)
        },
    decreases n,
{
    if n > 0 {
        lemma_density_sum_isolated(pp, ps, i, (n - 1) as nat);
        if n - 1 != i {
            assert(density_term_s(pp, ps, i, n - 1) == Some(0int));
        }
    }
}

/// Density self-term: a particle with no neighbors within the cutoff has
/// exactly its own kernel-weighted mass as density, `mass (*) W(0)`, and
/// that is positive whenever the product does not underflow the
/// fixed-point scale.
pub proof fn lemma_density_self_term(pp: Params, ps: Seq<Particle>, i: int)
    requires
        pp.wf(),
        0 <= i < ps.len(),
        pp.h2 > 0,
        forall|j: int|
            0 <= j < ps.len() && j != i ==> dist2_s(ps[i], #[trigger] ps[j]) >= pp.h2,
    ensures
        density_s(pp, ps, i) == match w_poly6_s(pp.poly6_k as int, pp.h2 as int, 0) {
            None => None::<int>,
            Some(w) => fx_mul(pp.mass as int, w),
        },
        (match w_poly6_s(pp.poly6_k as int, pp.h2 as int, 0) {
            None => false,
            Some(w) => tdiv(pp.mass as int * w, sfx()) >= 1 && fits(tdiv(
                pp.mass as int * w,
                sfx(),
            )),
        }) ==> (density_s(pp, ps, i) matches Some(v) && v > 0),
{
    assert(raw_d2_s(ps[i], ps[i]) == 0);
    assert(tdiv(0, sfx()) == 0);
    assert(dist2_s(ps[i], ps[i]) == 0);
    lemma_density_sum_isolated(pp, ps, i, ps.len());
}

/// The integer square root of a value at least a square is at least the
/// root of that square.
proof fn lemma_isqrt_at_least(d2: nat, c: nat)
    requires
        d2 >= c * c,
    ensures
        isqrt_s(d2) >= c,
{
    lemma_isqrt_s_bounds(d2);
    let r = isqrt_s(d2);
    assert(r >= c) by (nonlinear_arith)
        requires
            r * r <= d2,
            d2 < (r + 1) * (r + 1),
            c * c <= d2,
            r >= 0,
            c >= 0,
    ;
}

/// Zero-force equilibrium: with gravity disabled, two particles whose
/// distance is at least the interaction cutoff `2 * radius` exert exactly
/// zero net force on each other (the kernels vanish at the cutoff).
pub proof fn lemma_zero_force_at_cutoff(pp: Params, ps: Seq<Particle>, i: int)
    requires
        pp.wf(),
        ps.len() == 2,
        0 <= i < 2,
        pp.gravity == 0,
        raw_d2_s(ps[0], ps[1]) >= 4 * pp.radius * pp.radius,
        raw_d2_s(ps[1], ps[0]) >= 4 * pp.radius * pp.radius,
        density_s(pp, ps, i) is Some,
        pressure_s(pp, density_s(pp, ps, i)->0) is Some,
    ensures
        force_s(pp, ps, i) == Some((0int, 0int)),
{
    let rho_i = density_s(pp, ps, i)->0;
    let press_i = pressure_s(pp, rho_i)->0;
    let j = 1 - i;
    let d2 = raw_d2_s(ps[i], ps[j]);
    assert(d2 >= 4 * pp.radius * pp.radius);
    assert(4 * pp.radius * pp.radius == (2 * pp.radius) * (2 * pp.radius)) by (nonlinear_arith);
    assert(d2 > 0) by (nonlinear_arith)
        requires
            d2 >= (2 * pp.radius) * (2 * pp.radius),
            pp.radius >= 1,
    ;
    lemma_isqrt_at_least(d2 as nat, (2 * pp.radius) as nat);
    assert(pair_term_s(pp, ps, i, j, press_i) == Some((0int, 0int)));
    assert(pair_term_s(pp, ps, i, i, press_i) == Some((0int, 0int)));
    assert(force_sum_s(pp, ps, i, press_i, 0) == Some((0int, 0int)));
    assert(force_sum_s(pp, ps, i, press_i, 1) == Some((0int, 0int)));
    assert(force_sum_s(pp, ps, i, press_i, 2) == Some((0int, 0int)));
    assert(fx_mul(0, rho_i) == Some(0int));
    assert(fx_add(0, 0) == Some(0int));
}

/// Energy dissipation on bounce: with damping factor `-1/2`, a particle
/// that has crossed a wall is clamped to it and rebounds with half its
/// (even) velocity component, sign flipped.
pub proof fn lemma_bounce_damping(radius: int, limit: int, pos: int, vel: int)
    requires
        1 <= radius,
        2 * radius <= limit,
        vel % 2 == 0,
    ensures
        pos < radius ==> reflect_axis_s(radius, limit, -sfx() / 2, pos, vel) == (
            radius,
            -(vel / 2),
        ),
        pos > limit - radius && pos >= radius ==> reflect_axis_s(
            radius,
            limit,
            -sfx() / 2,
            pos,
            vel,
        ) == (limit - radius, -(vel / 2)),
{
    let d = -sfx() / 2;
    assert(d == -500000);
    let h = vel / 2;
    assert(vel == 2 * h);
    assert(vel * d == -(h * 1000000)) by (nonlinear_arith)
        requires
            vel == 2 * h,
            d == -500000,
    ;
    if h >= 0 {
        vstd::arithmetic::div_mod::lemma_div_multiples_vanish(h, 1000000);
        assert((1000000 * h) / 1000000 == h);
        assert(h * 1000000 == 1000000 * h);
        assert(damp_s(d, vel) == -h);
    } else {
        vstd::arithmetic::div_mod::lemma_div_multiples_vanish(-h, 1000000);
        assert((1000000 * -h) / 1000000 == -h);
        assert(-(h * 1000000) == 1000000 * -h);
        assert(damp_s(d, vel) == -h);
    }
}

/// Determinism: the outcome of any number of steps is a pure function of
/// the configuration and the initial state — two runs from equal states
/// agree exactly, step for step.  (Each particle's update reads only the
/// frozen pre-step snapshot, never a neighbor's already-updated state.)
pub proof fn lemma_run_deterministic(pp: Params, ps1: Seq<Particle>, ps2: Seq<Particle>, n: nat)
    requires
        ps1 == ps2,
    ensures
        run_s(pp, ps1, n) == run_s(pp, ps2, n),
{
}

} // verus!
