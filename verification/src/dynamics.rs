//! The force solver: per-particle density, pressure, and net force, all
//! read from a frozen snapshot of the particle sequence, and the
//! per-particle integration with boundary reflection.
//!
//! Every quantity is defined by a spec function over the snapshot, so one
//! step is a pure function of the pre-step state.  A `None` anywhere means
//! a value left the representable range: the step reports instability
//! instead of storing a corrupted value.

use vstd::prelude::*;
use crate::fixed::{
    ck, fadd, fdiv, fits, fmul, fsub, fx_add, fx_div, fx_mul, fx_sub, isqrt, isqrt_s,
    lemma_isqrt_s_bounds, lemma_tdiv_nonneg, sfx, tdiv, tdiv64, tdiv_i128,
};
use crate::kernels::{
    lemma_poly6_nonneg, w_poly6, w_poly6_s, w_spiky, w_spiky_s, w_visc, w_visc_s,
};
use crate::params::Params;
use crate::particle::Particle;

verus! {

/// Every particle of a snapshot is inside the domain with representable
/// velocity components: what the solver needs of the state it reads.
pub open spec fn state_ok(pp: Params, ps: Seq<Particle>) -> bool {
    forall|j: int|
        0 <= j < ps.len() ==> (#[trigger] ps[j]).contained(pp) && fits(ps[j].vx as int) && fits(
            ps[j].vy as int,
        )
}

/// The raw squared distance between two particles (micro-units squared,
/// not rescaled).
pub open spec fn raw_d2_s(a: Particle, b: Particle) -> int {
    (b.x - a.x) * (b.x - a.x) + (b.y - a.y) * (b.y - a.y)
}

/// The fixed-point squared distance: the raw square scaled back to
/// micro-units, comparable with the cached kernel cutoff square.
pub open spec fn dist2_s(a: Particle, b: Particle) -> int {
    tdiv(raw_d2_s(a, b), sfx())
}

/// One density contribution: the kernel-weighted mass of particle `j` as
/// seen from particle `i`, zero beyond the cutoff.  `j == i` contributes
/// its own self-term.
pub open spec fn density_term_s(pp: Params, ps: Seq<Particle>, i: int, j: int) -> Option<int> {
    let r2 = dist2_s(ps[i], ps[j]);
    if r2 >= pp.h2 {
        Some(0)
    } else {
        match w_poly6_s(pp.poly6_k as int, pp.h2 as int, r2) {
            None => None,
            Some(w) => fx_mul(pp.mass as int, w),
        }
    }
}

/// The density of particle `i` summed over the first `n` particles.
pub open spec fn density_sum_s(pp: Params, ps: Seq<Particle>, i: int, n: nat) -> Option<int>
    decreases n,
{
    if n == 0 {
        Some(0)
    } else {
        match density_sum_s(pp, ps, i, (n - 1) as nat) {
            None => None,
            Some(acc) => match density_term_s(pp, ps, i, n - 1) {
                None => None,
                Some(t) => fx_add(acc, t),
            },
        }
    }
}

/// The density of particle `i`: kernel-weighted masses over the whole
/// snapshot, recomputed from scratch.
pub open spec fn density_s(pp: Params, ps: Seq<Particle>, i: int) -> Option<int> {
    density_sum_s(pp, ps, i, ps.len())
}

/// The pressure from a density by the equation of state:
/// `stiffness * max(rho - rest_density, 0)`, rescaled.
pub open spec fn pressure_s(pp: Params, rho: int) -> Option<int> {
    fx_mul(pp.stiffness as int, if rho - pp.rest_density >= 0 {
        rho - pp.rest_density
    } else {
        0
    })
}

/// A defined density term is never negative.
pub proof fn lemma_density_term_nonneg(pp: Params, ps: Seq<Particle>, i: int, j: int)
    requires
        pp.wf(),
        density_term_s(pp, ps, i, j) is Some,
    ensures
        density_term_s(pp, ps, i, j)->0 >= 0,
{
    let r2 = dist2_s(ps[i], ps[j]);
    if r2 < pp.h2 {
        let dx = ps[j].x - ps[i].x;
        let dy = ps[j].y - ps[i].y;
        assert(dx * dx + dy * dy >= 0) by (nonlinear_arith);
        assert(raw_d2_s(ps[i], ps[j]) == dx * dx + dy * dy);
        lemma_tdiv_nonneg(raw_d2_s(ps[i], ps[j]), sfx());
        lemma_poly6_nonneg(pp.poly6_k as int, pp.h2 as int, r2);
        let w = w_poly6_s(pp.poly6_k as int, pp.h2 as int, r2)->0;
        assert(pp.mass * w >= 0) by (nonlinear_arith)
            requires
                pp.mass >= 0,
                w >= 0,
        ;
        lemma_tdiv_nonneg(pp.mass * w, sfx());
    }
}

/// A defined density is never negative.
pub proof fn lemma_density_sum_nonneg(pp: Params, ps: Seq<Particle>, i: int, n: nat)
    requires
        pp.wf(),
        density_sum_s(pp, ps, i, n) is Some,
    ensures
        density_sum_s(pp, ps, i, n)->0 >= 0,
    decreases n,
{
    if n > 0 {
        lemma_density_sum_nonneg(pp, ps, i, (n - 1) as nat);
        lemma_density_term_nonneg(pp, ps, i, n - 1);
    }
}

/// An undefined partial density sum stays undefined as more particles are
/// added.
pub proof fn lemma_density_sum_none(pp: Params, ps: Seq<Particle>, i: int, n1: nat, n2: nat)
    requires
        n1 <= n2,
        density_sum_s(pp, ps, i, n1) is None,
    ensures
        density_sum_s(pp, ps, i, n2) is None,
    decreases n2,
{
    if n1 < n2 {
        lemma_density_sum_none(pp, ps, i, n1, (n2 - 1) as nat);
    }
}

/// A defined pressure is never negative.
pub proof fn lemma_pressure_nonneg(pp: Params, rho: int)
    requires
        pp.wf(),
        pressure_s(pp, rho) is Some,
    ensures
        pressure_s(pp, rho)->0 >= 0,
{
    let excess = if rho - pp.rest_density >= 0 {
        rho - pp.rest_density
    } else {
        0
    };
    assert(pp.stiffness * excess >= 0) by (nonlinear_arith)
        requires
            pp.stiffness >= 0,
            excess >= 0,
    ;
    lemma_tdiv_nonneg(pp.stiffness * excess, sfx());
}

/// Computes the raw squared distance, exactly as `raw_d2_s`.
fn raw_d2(a: &Particle, b: &Particle, pp: &Params) -> (r: i128)
    requires
        pp.wf(),
        a.contained(*pp),
        b.contained(*pp),
    ensures
        r == raw_d2_s(*a, *b),
        0 <= r <= 8000000000000000000000000000000,
{
    let dx: i64 = b.x - a.x;
    let dy: i64 = b.y - a.y;
    proof {
        assert(dx * dx >= 0 && dx * dx <= 4000000000000000000000000000000
            && dy * dy >= 0 && dy * dy <= 4000000000000000000000000000000)
            by (nonlinear_arith)
            requires
                -2000000000000000 <= dx <= 2000000000000000,
                -2000000000000000 <= dy <= 2000000000000000,
        ;
    }
    (dx as i128) * (dx as i128) + (dy as i128) * (dy as i128)
}

/// Computes the fixed-point squared distance, exactly as `dist2_s`.
fn dist2(a: &Particle, b: &Particle, pp: &Params) -> (r: i128)
    requires
        pp.wf(),
        a.contained(*pp),
        b.contained(*pp),
    ensures
        r == dist2_s(*a, *b),
        0 <= r,
{
    let sq: i128 = raw_d2(a, b, pp);
    let r2: i128 = tdiv_i128(sq, 1000000);
    r2
}

/// Computes the density of particle `i`, exactly as `density_s`: `None`
/// reports a value outside the representable range.
pub fn density(pp: &Params, parts: &Vec<Particle>, i: usize) -> (r: Option<i64>)
    requires
        pp.wf(),
        i < parts.len(),
        state_ok(*pp, parts@),
    ensures
        r matches Some(v) ==> density_s(*pp, parts@, i as int) == Some(v as int) && v >= 0,
        r is None ==> density_s(*pp, parts@, i as int) is None,
{
    let mut acc: i64 = 0;
    let n: usize = parts.len();
    let mut j: usize = 0;
    while j < n
        invariant
            pp.wf(),
            i < n,
            n == parts.len(),
            state_ok(*pp, parts@),
            j <= n,
            density_sum_s(*pp, parts@, i as int, j as nat) == Some(acc as int),
            fits(acc as int),
        decreases n - j,
    {
        let r2w: i128 = dist2(&parts[i], &parts[j], pp);
        let t: Option<i64> = if r2w >= pp.h2 as i128 {
            Some(0)
        } else {
            match w_poly6(pp.poly6_k, pp.h2, r2w as i64) {
                None => None,
                Some(w) => fmul(pp.mass, w),
            }
        };
        match t {
            None => {
                proof {
                    lemma_density_sum_none(
                        *pp,
                        parts@,
                        i as int,
                        (j + 1) as nat,
                        parts@.len(),
                    );
                }
                return None;
            },
            Some(tv) => {
                match fadd(acc, tv) {
                    None => {
                        proof {
                            lemma_density_sum_none(
                                *pp,
                                parts@,
                                i as int,
                                (j + 1) as nat,
                                parts@.len(),
                            );
                        }
                        return None;
                    },
                    Some(a2) => {
                        acc = a2;
                    },
                }
            },
        }
        j = j + 1;
    }
    proof {
        lemma_density_sum_nonneg(*pp, parts@, i as int, parts@.len());
    }
    Some(acc)
}

/// Whether `j` is a neighbor of `i`: a different index whose particle lies
/// strictly within `cutoff` of particle `i`.
pub open spec fn is_neighbor_s(ps: Seq<Particle>, i: int, j: int, cutoff: int) -> bool {
    j != i && raw_d2_s(ps[i], ps[j]) < cutoff * cutoff
}

/// The neighbor indices of `i` among the first `n` particles, in
/// increasing order.
pub open spec fn neighbor_seq_s(ps: Seq<Particle>, i: int, cutoff: int, n: nat) -> Seq<usize>
    decreases n,
{
    if n == 0 {
        Seq::empty()
    } else {
        let prev = neighbor_seq_s(ps, i, cutoff, (n - 1) as nat);
        if is_neighbor_s(ps, i, n - 1, cutoff) {
            prev.push((n - 1) as usize)
        } else {
            prev
        }
    }
}

/// The neighbor list is sound and complete: it holds exactly the indices
/// below `n` that are neighbors of `i`, each once, in increasing order.
pub proof fn lemma_neighbor_seq_correct(ps: Seq<Particle>, i: int, cutoff: int, n: nat)
    requires
        n <= usize::MAX,
    ensures
        forall|t: int|
            0 <= t < neighbor_seq_s(ps, i, cutoff, n).len() ==> #[trigger] neighbor_seq_s(
                ps,
                i,
                cutoff,
                n,
            )[t] < n && is_neighbor_s(ps, i, neighbor_seq_s(ps, i, cutoff, n)[t] as int, cutoff),
        forall|j: int|
            0 <= j < n && is_neighbor_s(ps, i, j, cutoff) ==> neighbor_seq_s(
                ps,
                i,
                cutoff,
                n,
            ).contains(j as usize),
        forall|t1: int, t2: int|
            0 <= t1 < t2 < neighbor_seq_s(ps, i, cutoff, n).len() ==> #[trigger] neighbor_seq_s(
                ps,
                i,
                cutoff,
                n,
            )[t1] < #[trigger] neighbor_seq_s(ps, i, cutoff, n)[t2],
    decreases n,
{
    if n > 0 {
        lemma_neighbor_seq_correct(ps, i, cutoff, (n - 1) as nat);
        let prev = neighbor_seq_s(ps, i, cutoff, (n - 1) as nat);
        let cur = neighbor_seq_s(ps, i, cutoff, n);
        if is_neighbor_s(ps, i, n - 1, cutoff) {
            assert(cur == prev.push((n - 1) as usize));
        } else {
            assert(cur == prev);
        }
        assert forall|t: int| 0 <= t < cur.len() implies #[trigger] cur[t] < n && is_neighbor_s(
            ps,
            i,
            cur[t] as int,
            cutoff,
        ) by {
            if t < prev.len() {
                assert(cur[t] == prev[t]);
            } else {
                assert(cur[t] == (n - 1) as usize);
            }
        }
        assert forall|j: int| 0 <= j < n && is_neighbor_s(ps, i, j, cutoff) implies cur.contains(
            j as usize,
        ) by {
            if j < n - 1 {
                assert(prev.contains(j as usize));
                let t = choose|t: int| 0 <= t < prev.len() && prev[t] == j as usize;
                assert(cur[t] == j as usize);
            } else {
                assert(cur[cur.len() - 1] == j as usize);
            }
        }
        assert forall|t1: int, t2: int| 0 <= t1 < t2 < cur.len() implies #[trigger] cur[t1]
            < #[trigger] cur[t2] by {
            assert(cur[t1] == prev[t1]);
            if t2 < prev.len() {
                assert(cur[t2] == prev[t2]);
            } else {
                assert(prev[t1] < n - 1);
            }
        }
    }
}

/// Enumerates the neighbors of particle `i`: every other index whose
/// particle lies strictly within `cutoff`, in increasing order, exactly as
/// `neighbor_seq_s`.  The solver's pair scan applies the same criterion
/// with the interaction radius `2 * radius`.
pub fn neighbors(pp: &Params, parts: &Vec<Particle>, i: usize, cutoff: i64) -> (r: Vec<usize>)
    requires
        pp.wf(),
        i < parts.len(),
        state_ok(*pp, parts@),
        0 <= cutoff <= 2000000000000000,
    ensures
        r@ == neighbor_seq_s(parts@, i as int, cutoff as int, parts@.len()),
{
    let n: usize = parts.len();
    let mut out: Vec<usize> = Vec::new();
    let mut j: usize = 0;
    proof {
        assert(cutoff as int * cutoff as int <= 4000000000000000000000000000000)
            by (nonlinear_arith)
            requires
                0 <= cutoff as int <= 2000000000000000,
        ;
    }
    while j < n
        invariant
            pp.wf(),
            i < n,
            n == parts.len(),
            state_ok(*pp, parts@),
            0 <= cutoff <= 2000000000000000,
            j <= n,
            out@ == neighbor_seq_s(parts@, i as int, cutoff as int, j as nat),
        decreases n - j,
    {
        let d2: i128 = raw_d2(&parts[i], &parts[j], pp);
        proof {
            assert(cutoff as int * cutoff as int <= 4000000000000000000000000000000)
                by (nonlinear_arith)
                requires
                    0 <= cutoff as int <= 2000000000000000,
            ;
        }
        if j != i && d2 < (cutoff as i128) * (cutoff as i128) {
            out.push(j);
        }
        j = j + 1;
    }
    out
}

/// The pressure-force scalar shared by both components of a pair term:
/// `mass (*) W_spiky(r) (*) (press_i + press_j) / (2 rho_j)`.
pub open spec fn pair_press_mag_s(
    pp: Params,
    press_i: int,
    press_j: int,
    rho_j: int,
    r: int,
) -> Option<int>
    recommends
        rho_j >= 1,
{
    match fx_add(press_i, press_j) {
        None => None,
        Some(psum) => match fx_div(psum, rho_j) {
            None => None,
            Some(q0) => {
                let q = tdiv(q0, 2);
                match w_spiky_s(pp.spiky_k as int, 2 * pp.radius, r) {
                    None => None,
                    Some(sw) => match fx_mul(pp.mass as int, sw) {
                        None => None,
                        Some(a1) => fx_mul(a1, q),
                    },
                }
            },
        },
    }
}

/// One viscosity component of a pair term:
/// `(viscosity (*) mass) (*) (dv / rho_j) (*) W_visc(r)`.
pub open spec fn pair_visc_comp_s(m1: int, dv: int, rho_j: int, vw: int) -> Option<int>
    recommends
        rho_j >= 1,
{
    match fx_div(dv, rho_j) {
        None => None,
        Some(qv) => match fx_mul(m1, qv) {
            None => None,
            Some(t1) => fx_mul(t1, vw),
        },
    }
}

/// The force a pair within the interaction radius exchanges: the pressure
/// force along the unit vector from the neighbor `j` toward `i`, plus the
/// viscosity force diffusing the velocity difference.
pub open spec fn pair_active_s(
    pp: Params,
    ps: Seq<Particle>,
    i: int,
    j: int,
    press_i: int,
    press_j: int,
    rho_j: int,
    r: int,
) -> Option<(int, int)>
    recommends
        rho_j >= 1,
        r >= 1,
{
    match fx_div(ps[i].x - ps[j].x, r) {
        None => None,
        Some(ux) => match fx_div(ps[i].y - ps[j].y, r) {
            None => None,
            Some(uy) => match pair_press_mag_s(pp, press_i, press_j, rho_j, r) {
                None => None,
                Some(a2) => match fx_mul(ux, a2) {
                    None => None,
                    Some(fpx) => match fx_mul(uy, a2) {
                        None => None,
                        Some(fpy) => match w_visc_s(pp.visc_k as int, 2 * pp.radius, r) {
                            None => None,
                            Some(vw) => match fx_mul(pp.viscosity as int, pp.mass as int) {
                                None => None,
                                Some(m1) => match fx_sub(ps[j].vx as int, ps[i].vx as int) {
                                    None => None,
                                    Some(dvx) => match fx_sub(ps[j].vy as int, ps[i].vy as int) {
                                        None => None,
                                        Some(dvy) => match pair_visc_comp_s(m1, dvx, rho_j, vw) {
                                            None => None,
                                            Some(tvx) => match pair_visc_comp_s(
                                                m1,
                                                dvy,
                                                rho_j,
                                                vw,
                                            ) {
                                                None => None,
                                                Some(tvy) => match fx_add(fpx, tvx) {
                                                    None => None,
                                                    Some(ftx) => match fx_add(fpy, tvy) {
                                                        None => None,
                                                        Some(fty) => Some((ftx, fty)),
                                                    },
                                                },
                                            },
                                        },
                                    },
                                },
                            },
                        },
                    },
                },
            },
        },
    }
}

/// The force contribution of particle `j` to particle `i`: zero for the
/// particle itself, for coincident positions (no direction), for pairs at
/// or beyond the interaction radius `2 * radius`, and for a neighbor with
/// degenerate (zero) density, which is skipped rather than divided by.
pub open spec fn pair_term_s(
    pp: Params,
    ps: Seq<Particle>,
    i: int,
    j: int,
    press_i: int,
) -> Option<(int, int)> {
    if j == i {
        Some((0, 0))
    } else {
        let d2 = raw_d2_s(ps[i], ps[j]);
        if d2 == 0 {
            Some((0, 0))
        } else {
            let r = isqrt_s(d2 as nat) as int;
            if r >= 2 * pp.radius {
                Some((0, 0))
            } else {
                match density_s(pp, ps, j) {
                    None => None,
                    Some(rho_j) => if rho_j == 0 {
                        Some((0, 0))
                    } else {
                        match pressure_s(pp, rho_j) {
                            None => None,
                            Some(press_j) => pair_active_s(
                                pp,
                                ps,
                                i,
                                j,
                                press_i,
                                press_j,
                                rho_j,
                                r,
                            ),
                        }
                    },
                }
            }
        }
    }
}

/// The pair forces on particle `i` summed over the first `n` particles.
pub open spec fn force_sum_s(
    pp: Params,
    ps: Seq<Particle>,
    i: int,
    press_i: int,
    n: nat,
) -> Option<(int, int)>
    decreases n,
{
    if n == 0 {
        Some((0, 0))
    } else {
        match force_sum_s(pp, ps, i, press_i, (n - 1) as nat) {
            None => None,
            Some((ax, ay)) => match pair_term_s(pp, ps, i, n - 1, press_i) {
                None => None,
                Some((tx, ty)) => match fx_add(ax, tx) {
                    None => None,
                    Some(sx) => match fx_add(ay, ty) {
                        None => None,
                        Some(sy) => Some((sx, sy)),
                    },
                },
            },
        }
    }
}

/// An undefined partial force sum stays undefined as more pairs are added.
pub proof fn lemma_force_sum_none(
    pp: Params,
    ps: Seq<Particle>,
    i: int,
    press_i: int,
    n1: nat,
    n2: nat,
)
    requires
        n1 <= n2,
        force_sum_s(pp, ps, i, press_i, n1) is None,
    ensures
        force_sum_s(pp, ps, i, press_i, n2) is None,
    decreases n2,
{
    if n1 < n2 {
        lemma_force_sum_none(pp, ps, i, press_i, n1, (n2 - 1) as nat);
    }
}

/// The net force on particle `i`: all pair contributions, plus gravity
/// `(0, gravity (*) rho_i)` added once per particle.
pub open spec fn force_s(pp: Params, ps: Seq<Particle>, i: int) -> Option<(int, int)> {
    match density_s(pp, ps, i) {
        None => None,
        Some(rho_i) => match pressure_s(pp, rho_i) {
            None => None,
            Some(press_i) => match force_sum_s(pp, ps, i, press_i, ps.len()) {
                None => None,
                Some((sx, sy)) => match fx_mul(pp.gravity as int, rho_i) {
                    None => None,
                    Some(g) => match fx_add(sy, g) {
                        None => None,
                        Some(fy) => Some((sx, fy)),
                    },
                },
            },
        },
    }
}

/// Computes the pressure from a density, exactly as `pressure_s`.
pub fn pressure(pp: &Params, rho: i64) -> (r: Option<i64>)
    requires
        pp.wf(),
        0 <= rho,
    ensures
        r matches Some(v) ==> pressure_s(*pp, rho as int) == Some(v as int) && v >= 0,
        r is None ==> pressure_s(*pp, rho as int) is None,
{
    let excess: i64 = if rho >= pp.rest_density {
        rho - pp.rest_density
    } else {
        0
    };
    let r = fmul(pp.stiffness, excess);
    proof {
        if pressure_s(*pp, rho as int) is Some {
            lemma_pressure_nonneg(*pp, rho as int);
        }
    }
    r
}

/// Computes the force contribution of `j` to `i`, exactly as
/// `pair_term_s`.
fn pair_term(
    pp: &Params,
    parts: &Vec<Particle>,
    i: usize,
    j: usize,
    press_i: i64,
) -> (r: Option<(i64, i64)>)
    requires
        pp.wf(),
        i < parts.len(),
        j < parts.len(),
        state_ok(*pp, parts@),
        fits(press_i as int),
    ensures
        r matches Some(t) ==> pair_term_s(*pp, parts@, i as int, j as int, press_i as int)
            == Some((t.0 as int, t.1 as int)),
        r is None ==> pair_term_s(*pp, parts@, i as int, j as int, press_i as int) is None,
{
    if j == i {
        return Some((0, 0));
    }
    let d2: i128 = raw_d2(&parts[i], &parts[j], pp);
    if d2 == 0 {
        return Some((0, 0));
    }
    let rq: u128 = isqrt(d2 as u128);
    proof {
        assert(rq as int <= 3000000000000000) by (nonlinear_arith)
            requires
                rq as int * rq as int <= 8000000000000000000000000000000,
                rq >= 0,
        ;
        lemma_isqrt_s_bounds(d2 as nat);
        assert(rq >= 1) by (nonlinear_arith)
            requires
                d2 >= 1,
                d2 < (rq as int + 1) * (rq as int + 1),
                rq >= 0,
        ;
    }
    let r: i64 = rq as i64;
    let c: i64 = 2 * pp.radius;
    if r >= c {
        return Some((0, 0));
    }
    let rho_j: i64 = match density(pp, parts, j) {
        None => {
            return None;
        },
        Some(v) => v,
    };
    if rho_j == 0 {
        return Some((0, 0));
    }
    let press_j: i64 = match pressure(pp, rho_j) {
        None => {
            return None;
        },
        Some(v) => v,
    };
    let ux: i64 = match fdiv(parts[i].x - parts[j].x, r) {
        None => {
            return None;
        },
        Some(v) => v,
    };
    let uy: i64 = match fdiv(parts[i].y - parts[j].y, r) {
        None => {
            return None;
        },
        Some(v) => v,
    };
    let psum: i64 = match fadd(press_i, press_j) {
        None => {
            return None;
        },
        Some(v) => v,
    };
    let q0: i64 = match fdiv(psum, rho_j) {
        None => {
            return None;
        },
        Some(v) => v,
    };
    let q: i64 = tdiv64(q0, 2);
    let sw: i64 = match w_spiky(pp.spiky_k, c, r) {
        None => {
            return None;
        },
        Some(v) => v,
    };
    let a1: i64 = match fmul(pp.mass, sw) {
        None => {
            return None;
        },
        Some(v) => v,
    };
    let a2: i64 = match fmul(a1, q) {
        None => {
            return None;
        },
        Some(v) => v,
    };
    let fpx: i64 = match fmul(ux, a2) {
        None => {
            return None;
        },
        Some(v) => v,
    };
    let fpy: i64 = match fmul(uy, a2) {
        None => {
            return None;
        },
        Some(v) => v,
    };
    let vw: i64 = match w_visc(pp.visc_k, c, r) {
        None => {
            return None;
        },
        Some(v) => v,
    };
    let m1: i64 = match fmul(pp.viscosity, pp.mass) {
        None => {
            return None;
        },
        Some(v) => v,
    };
    let dvx: i64 = match fsub(parts[j].vx, parts[i].vx) {
        None => {
            return None;
        },
        Some(v) => v,
    };
    let dvy: i64 = match fsub(parts[j].vy, parts[i].vy) {
        None => {
            return None;
        },
        Some(v) => v,
    };
    let qvx: i64 = match fdiv(dvx, rho_j) {
        None => {
            return None;
        },
        Some(v) => v,
    };
    let t1x: i64 = match fmul(m1, qvx) {
        None => {
            return None;
        },
        Some(v) => v,
    };
    let tvx: i64 = match fmul(t1x, vw) {
        None => {
            return None;
        },
        Some(v) => v,
    };
    let qvy: i64 = match fdiv(dvy, rho_j) {
        None => {
            return None;
        },
        Some(v) => v,
    };
    let t1y: i64 = match fmul(m1, qvy) {
        None => {
            return None;
        },
        Some(v) => v,
    };
    let tvy: i64 = match fmul(t1y, vw) {
        None => {
            return None;
        },
        Some(v) => v,
    };
    let ftx: i64 = match fadd(fpx, tvx) {
        None => {
            return None;
        },
        Some(v) => v,
    };
    let fty: i64 = match fadd(fpy, tvy) {
        None => {
            return None;
        },
        Some(v) => v,
    };
    Some((ftx, fty))
}

/// Computes the net force on particle `i`, exactly as `force_s`, given its
/// already-computed density and pressure.
pub fn force_at(pp: &Params, parts: &Vec<Particle>, i: usize, rho_i: i64, press_i: i64) -> (r:
    Option<(i64, i64)>)
    requires
        pp.wf(),
        i < parts.len(),
        state_ok(*pp, parts@),
        density_s(*pp, parts@, i as int) == Some(rho_i as int),
        pressure_s(*pp, rho_i as int) == Some(press_i as int),
        0 <= rho_i,
        0 <= press_i,
    ensures
        r matches Some(f) ==> force_s(*pp, parts@, i as int) == Some((f.0 as int, f.1 as int)),
        r is None ==> force_s(*pp, parts@, i as int) is None,
{
    let n: usize = parts.len();
    let mut ax: i64 = 0;
    let mut ay: i64 = 0;
    let mut j: usize = 0;
    while j < n
        invariant
            pp.wf(),
            i < n,
            n == parts.len(),
            state_ok(*pp, parts@),
            fits(press_i as int),
            density_s(*pp, parts@, i as int) == Some(rho_i as int),
            pressure_s(*pp, rho_i as int) == Some(press_i as int),
            j <= n,
            force_sum_s(*pp, parts@, i as int, press_i as int, j as nat) == Some(
                (ax as int, ay as int),
            ),
            fits(ax as int),
            fits(ay as int),
        decreases n - j,
    {
        let t: (i64, i64) = match pair_term(pp, parts, i, j, press_i) {
            None => {
                proof {
                    lemma_force_sum_none(
                        *pp,
                        parts@,
                        i as int,
                        press_i as int,
                        (j + 1) as nat,
                        parts@.len(),
                    );
                }
                return None;
            },
            Some(v) => v,
        };
        let ax2: i64 = match fadd(ax, t.0) {
            None => {
                proof {
                    lemma_force_sum_none(
                        *pp,
                        parts@,
                        i as int,
                        press_i as int,
                        (j + 1) as nat,
                        parts@.len(),
                    );
                }
                return None;
            },
            Some(v) => v,
        };
        let ay2: i64 = match fadd(ay, t.1) {
            None => {
                proof {
                    lemma_force_sum_none(
                        *pp,
                        parts@,
                        i as int,
                        press_i as int,
                        (j + 1) as nat,
                        parts@.len(),
                    );
                }
                return None;
            },
            Some(v) => v,
        };
        ax = ax2;
        ay = ay2;
        j = j + 1;
    }
    let g: i64 = match fmul(pp.gravity, rho_i) {
        None => {
            return None;
        },
        Some(v) => v,
    };
    let fy: i64 = match fadd(ay, g) {
        None => {
            return None;
        },
        Some(v) => v,
    };
    Some((ax, fy))
}

/// Boundary damping of one velocity component: the component scaled by the
/// (nonpositive) damping factor, so it flips sign and attenuates.
pub open spec fn damp_s(damping: int, v: int) -> int {
    tdiv(v * damping, sfx())
}

/// A damped component opposes the incoming one and is no larger in
/// magnitude.
pub proof fn lemma_damp_bound(damping: int, v: int)
    requires
        -sfx() <= damping <= 0,
    ensures
        v >= 0 ==> -v <= damp_s(damping, v) <= 0,
        v < 0 ==> 0 <= damp_s(damping, v) <= -v,
{
    if v >= 0 {
        assert(-(v * 1000000) <= v * damping <= 0) by (nonlinear_arith)
            requires
                v >= 0,
                -1000000 <= damping <= 0,
        ;
        crate::fixed::lemma_tdiv_mul_bound(v * damping, sfx(), v);
    } else {
        assert(0 <= v * damping <= (-v) * 1000000) by (nonlinear_arith)
            requires
                v < 0,
                -1000000 <= damping <= 0,
        ;
        crate::fixed::lemma_tdiv_mul_bound(v * damping, sfx(), -v);
    }
}

/// Boundary reflection on one axis: if the integrated position minus the
/// radius falls below zero, clamp to the radius and damp that component;
/// symmetrically against the upper bound.  A particle inside the walls is
/// left unchanged.
pub open spec fn reflect_axis_s(
    radius: int,
    limit: int,
    damping: int,
    pos: int,
    vel: int,
) -> (int, int) {
    let low = if pos - radius < 0 {
        (radius, damp_s(damping, vel))
    } else {
        (pos, vel)
    };
    if low.0 + radius > limit {
        (limit - radius, damp_s(damping, low.1))
    } else {
        low
    }
}

/// Reflection always lands the position inside `[radius, limit - radius]`
/// and never grows the velocity magnitude.
pub proof fn lemma_reflect_contained(radius: int, limit: int, damping: int, pos: int, vel: int)
    requires
        1 <= radius,
        2 * radius <= limit,
        -sfx() <= damping <= 0,
    ensures
        radius <= reflect_axis_s(radius, limit, damping, pos, vel).0 <= limit - radius,
        -abs_s(vel) <= reflect_axis_s(radius, limit, damping, pos, vel).1 <= abs_s(vel),
{
    lemma_damp_bound(damping, vel);
    lemma_damp_bound(damping, damp_s(damping, vel));
}

/// The absolute value.
pub open spec fn abs_s(v: int) -> int {
    if v >= 0 {
        v
    } else {
        -v
    }
}

/// Reflection is idempotent: a particle already inside the walls is left
/// exactly as it is.
pub proof fn lemma_reflect_idempotent(radius: int, limit: int, damping: int, pos: int, vel: int)
    requires
        radius <= pos <= limit - radius,
    ensures
        reflect_axis_s(radius, limit, damping, pos, vel) == (pos, vel),
{
}

/// One velocity component after acceleration:
/// `v + ((f / rho) (*) dt)`, the semi-implicit Euler velocity update.
pub open spec fn vel_comp_s(pp: Params, f: int, rho: int, v: int) -> Option<int>
    recommends
        rho >= 1,
{
    match fx_div(f, rho) {
        None => None,
        Some(a) => match fx_mul(a, pp.dt as int) {
            None => None,
            Some(dv) => fx_add(v, dv),
        },
    }
}

/// The next state of particle `i`, from the frozen snapshot: net force,
/// semi-implicit Euler (new velocity first, position with the new
/// velocity), then boundary reflection per axis.  A zero density skips the
/// acceleration instead of dividing by it.
pub open spec fn integrate_s(pp: Params, ps: Seq<Particle>, i: int) -> Option<Particle> {
    match density_s(pp, ps, i) {
        None => None,
        Some(rho) => match force_s(pp, ps, i) {
            None => None,
            Some(f) => {
                let vxo = if rho == 0 {
                    Some(ps[i].vx as int)
                } else {
                    vel_comp_s(pp, f.0, rho, ps[i].vx as int)
                };
                match vxo {
                    None => None,
                    Some(vx1) => {
                        let vyo = if rho == 0 {
                            Some(ps[i].vy as int)
                        } else {
                            vel_comp_s(pp, f.1, rho, ps[i].vy as int)
                        };
                        match vyo {
                            None => None,
                            Some(vy1) => match fx_mul(vx1, pp.dt as int) {
                                None => None,
                                Some(dxm) => match fx_add(ps[i].x as int, dxm) {
                                    None => None,
                                    Some(px1) => match fx_mul(vy1, pp.dt as int) {
                                        None => None,
                                        Some(dym) => match fx_add(ps[i].y as int, dym) {
                                            None => None,
                                            Some(py1) => {
                                                let rx = reflect_axis_s(
                                                    pp.radius as int,
                                                    pp.width as int,
                                                    pp.damping as int,
                                                    px1,
                                                    vx1,
                                                );
                                                let ry = reflect_axis_s(
                                                    pp.radius as int,
                                                    pp.height as int,
                                                    pp.damping as int,
                                                    py1,
                                                    vy1,
                                                );
                                                Some(
                                                    Particle {
                                                        x: rx.0 as i64,
                                                        y: ry.0 as i64,
                                                        vx: rx.1 as i64,
                                                        vy: ry.1 as i64,
                                                    },
                                                )
                                            },
                                        },
                                    },
                                },
                            },
                        }
                    },
                }
            },
        },
    }
}

/// Damps one velocity component, exactly as `damp_s`.
fn damp(damping: i64, v: i64) -> (r: i64)
    requires
        -1000000 <= damping <= 0,
        fits(v as int),
    ensures
        r == damp_s(damping as int, v as int),
        v >= 0 ==> -v <= r <= 0,
        v < 0 ==> 0 <= r <= -v,
{
    proof {
        lemma_damp_bound(damping as int, v as int);
        assert(v as int * damping as int <= i64::MAX as int * 1000000
            && v as int * damping as int >= -(i64::MAX as int * 1000000)) by (nonlinear_arith)
            requires
                -(i64::MAX as int) <= v as int <= i64::MAX as int,
                -1000000 <= damping as int <= 0,
        ;
    }
    let p: i128 = (v as i128) * (damping as i128);
    let q: i128 = tdiv_i128(p, 1000000);
    q as i64
}

/// Reflects one axis, exactly as `reflect_axis_s`.
fn reflect_axis(radius: i64, limit: i64, damping: i64, pos: i64, vel: i64) -> (r: (i64, i64))
    requires
        1 <= radius,
        2 * radius <= limit,
        limit <= 1000000000000000,
        -1000000 <= damping <= 0,
        fits(pos as int),
        fits(vel as int),
    ensures
        (r.0 as int, r.1 as int) == reflect_axis_s(
            radius as int,
            limit as int,
            damping as int,
            pos as int,
            vel as int,
        ),
        radius <= r.0 <= limit - radius,
        fits(r.1 as int),
{
    proof {
        lemma_reflect_contained(
            radius as int,
            limit as int,
            damping as int,
            pos as int,
            vel as int,
        );
    }
    let low: (i64, i64) = if pos < radius {
        (radius, damp(damping, vel))
    } else {
        (pos, vel)
    };
    if low.0 > limit - radius {
        (limit - radius, damp(damping, low.1))
    } else {
        low
    }
}

/// Computes one velocity component, exactly as `vel_comp_s`.
fn vel_comp(pp: &Params, f: i64, rho: i64, v: i64) -> (r: Option<i64>)
    requires
        pp.wf(),
        rho >= 1,
        fits(f as int),
        fits(v as int),
    ensures
        r matches Some(w) ==> vel_comp_s(*pp, f as int, rho as int, v as int) == Some(w as int)
            && fits(w as int),
        r is None ==> vel_comp_s(*pp, f as int, rho as int, v as int) is None,
{
    let a: i64 = match fdiv(f, rho) {
        None => {
            return None;
        },
        Some(w) => w,
    };
    let dv: i64 = match fmul(a, pp.dt) {
        None => {
            return None;
        },
        Some(w) => w,
    };
    fadd(v, dv)
}

/// Computes the next state of particle `i` from the frozen snapshot,
/// exactly as `integrate_s`: `None` reports that some quantity left the
/// representable range (a simulation instability).
pub fn integrate_at(pp: &Params, parts: &Vec<Particle>, i: usize) -> (r: Option<Particle>)
    requires
        pp.wf(),
        i < parts.len(),
        state_ok(*pp, parts@),
    ensures
        r matches Some(p) ==> integrate_s(*pp, parts@, i as int) == Some(p) && p.contained(*pp)
            && fits(p.vx as int) && fits(p.vy as int),
        r is None ==> integrate_s(*pp, parts@, i as int) is None,
{
    let rho: i64 = match density(pp, parts, i) {
        None => {
            return None;
        },
        Some(v) => v,
    };
    let press: i64 = match pressure(pp, rho) {
        None => {
            return None;
        },
        Some(v) => v,
    };
    let f: (i64, i64) = match force_at(pp, parts, i, rho, press) {
        None => {
            return None;
        },
        Some(v) => v,
    };
    let vx1: i64 = if rho == 0 {
        parts[i].vx
    } else {
        match vel_comp(pp, f.0, rho, parts[i].vx) {
            None => {
                return None;
            },
            Some(v) => v,
        }
    };
    let vy1: i64 = if rho == 0 {
        parts[i].vy
    } else {
        match vel_comp(pp, f.1, rho, parts[i].vy) {
            None => {
                return None;
            },
            Some(v) => v,
        }
    };
    let dxm: i64 = match fmul(vx1, pp.dt) {
        None => {
            return None;
        },
        Some(v) => v,
    };
    let px1: i64 = match fadd(parts[i].x, dxm) {
        None => {
            return None;
        },
        Some(v) => v,
    };
    let dym: i64 = match fmul(vy1, pp.dt) {
        None => {
            return None;
        },
        Some(v) => v,
    };
    let py1: i64 = match fadd(parts[i].y, dym) {
        None => {
            return None;
        },
        Some(v) => v,
    };
    let rx: (i64, i64) = reflect_axis(pp.radius, pp.width, pp.damping, px1, vx1);
    let ry: (i64, i64) = reflect_axis(pp.radius, pp.height, pp.damping, py1, vy1);
    Some(Particle { x: rx.0, y: ry.0, vx: rx.1, vy: ry.1 })
}

} // verus!
