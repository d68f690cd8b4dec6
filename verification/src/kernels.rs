//! The three smoothing kernels: density (poly6-style), pressure gradient
//! (spiky-style), and viscosity Laplacian.
//!
//! Each kernel is exactly zero at and beyond its cutoff, so an interaction
//! fades continuously to nothing at the interaction radius.  Kernel
//! coefficients are plain integers weighing micro-unit arguments; the
//! formulas divide the fixed-point scale back out so results are
//! micro-units again.

use vstd::prelude::*;
use crate::fixed::{fx_mul, fx_mul_raw, fmul, fmul_raw, lemma_tdiv_nonneg, sfx};

verus! {

/// Density kernel on the fixed-point squared distance `r2` with cutoff
/// `h2`: `k6 * (h2 - r2)^3` rescaled, and `0` at or beyond the cutoff.
pub open spec fn w_poly6_s(k6: int, h2: int, r2: int) -> Option<int> {
    if r2 >= h2 {
        Some(0)
    } else {
        match fx_mul(k6, h2 - r2) {
            None => None,
            Some(t1) => match fx_mul(t1, h2 - r2) {
                None => None,
                Some(t2) => fx_mul_raw(t2, h2 - r2),
            },
        }
    }
}

/// Pressure-gradient kernel magnitude on the distance `r` with cutoff `c`:
/// `ks * (c - r)^2` rescaled, and `0` at or beyond the cutoff.
pub open spec fn w_spiky_s(ks: int, c: int, r: int) -> Option<int> {
    if r >= c {
        Some(0)
    } else {
        match fx_mul(ks, c - r) {
            None => None,
            Some(t1) => fx_mul_raw(t1, c - r),
        }
    }
}

/// Viscosity-Laplacian kernel on the distance `r` with cutoff `c`:
/// `kv * (c - r)`, and `0` at or beyond the cutoff.
pub open spec fn w_visc_s(kv: int, c: int, r: int) -> Option<int> {
    if r >= c {
        Some(0)
    } else {
        fx_mul_raw(kv, c - r)
    }
}

/// A defined kernel weight is never negative (nonnegative coefficient,
/// argument below the cutoff).
pub proof fn lemma_poly6_nonneg(k6: int, h2: int, r2: int)
    requires
        0 <= k6,
        0 <= r2,
        w_poly6_s(k6, h2, r2) is Some,
    ensures
        w_poly6_s(k6, h2, r2)->0 >= 0,
{
    if r2 < h2 {
        let d = h2 - r2;
        assert(k6 * d >= 0) by (nonlinear_arith)
            requires
                k6 >= 0,
                d >= 0,
        ;
        lemma_tdiv_nonneg(k6 * d, sfx());
        let t1 = fx_mul(k6, h2 - r2)->0;
        assert(t1 * d >= 0) by (nonlinear_arith)
            requires
                t1 >= 0,
                d >= 0,
        ;
        lemma_tdiv_nonneg(t1 * d, sfx());
        let t2 = fx_mul(t1, h2 - r2)->0;
        assert(t2 * d >= 0) by (nonlinear_arith)
            requires
                t2 >= 0,
                d >= 0,
        ;
    }
}

/// Evaluates the density kernel; `None` reports an unrepresentable weight.
pub fn w_poly6(k6: i64, h2: i64, r2: i64) -> (r: Option<i64>)
    requires
        0 <= k6,
        0 <= h2,
        0 <= r2,
    ensures
        r matches Some(w) ==> w_poly6_s(k6 as int, h2 as int, r2 as int) == Some(w as int),
        r is None ==> w_poly6_s(k6 as int, h2 as int, r2 as int) is None,
{
    if r2 >= h2 {
        Some(0)
    } else {
        match fmul(k6, h2 - r2) {
            None => None,
            Some(t1) => match fmul(t1, h2 - r2) {
                None => None,
                Some(t2) => fmul_raw(t2, h2 - r2),
            },
        }
    }
}

/// Evaluates the pressure-gradient kernel magnitude.
pub fn w_spiky(ks: i64, c: i64, r: i64) -> (res: Option<i64>)
    requires
        0 <= ks,
        0 <= c,
        0 <= r,
    ensures
        res matches Some(w) ==> w_spiky_s(ks as int, c as int, r as int) == Some(w as int),
        res is None ==> w_spiky_s(ks as int, c as int, r as int) is None,
{
    if r >= c {
        Some(0)
    } else {
        match fmul(ks, c - r) {
            None => None,
            Some(t1) => fmul_raw(t1, c - r),
        }
    }
}

/// Evaluates the viscosity-Laplacian kernel.
pub fn w_visc(kv: i64, c: i64, r: i64) -> (res: Option<i64>)
    requires
        0 <= kv,
        0 <= c,
        0 <= r,
    ensures
        res matches Some(w) ==> w_visc_s(kv as int, c as int, r as int) == Some(w as int),
        res is None ==> w_visc_s(kv as int, c as int, r as int) is None,
{
    if r >= c {
        Some(0)
    } else {
        fmul_raw(kv, c - r)
    }
}

} // verus!
