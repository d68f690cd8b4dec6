//! Exact fixed-point arithmetic on `i64` micro-units.
//!
//! A stored value `v` stands for the real number `v / 1_000_000`.  Every
//! operation is computed exactly in `i128` and then checked against the
//! `i64` range: a result outside that range is reported as `None`, which
//! the simulation surfaces as an instability error.  Division truncates
//! toward zero, as the spec functions here state.

use vstd::prelude::*;

verus! {

/// The fixed-point scale: stored values count millionths.
pub open spec fn sfx() -> int {
    1000000
}

/// The fixed-point scale as an executable constant.
pub const FX_ONE: i64 = 1000000;

/// Whether a mathematical integer is representable as a stored value.
/// `i64::MIN` is left out so that every representable value can be negated.
pub open spec fn fits(v: int) -> bool {
    -(i64::MAX as int) <= v <= i64::MAX as int
}

/// Division truncating toward zero (the machine convention), for `b >= 1`.
pub open spec fn tdiv(a: int, b: int) -> int
    recommends
        b >= 1,
{
    if a >= 0 {
        a / b
    } else {
        -((-a) / b)
    }
}

/// Range-checks a mathematical result: `Some` exactly when it is storable.
pub open spec fn ck(v: int) -> Option<int> {
    if fits(v) {
        Some(v)
    } else {
        None
    }
}

/// Checked fixed-point addition: `a + b`.
pub open spec fn fx_add(a: int, b: int) -> Option<int> {
    ck(a + b)
}

/// Checked fixed-point multiplication: `a * b / scale`, truncated.
pub open spec fn fx_mul(a: int, b: int) -> Option<int> {
    ck(tdiv(a * b, sfx()))
}

/// Checked fixed-point subtraction: `a - b`.
pub open spec fn fx_sub(a: int, b: int) -> Option<int> {
    ck(a - b)
}

/// Checked plain integer multiplication (no rescaling): `a * b`.
pub open spec fn fx_mul_raw(a: int, b: int) -> Option<int> {
    ck(a * b)
}

/// Checked fixed-point division: `a * scale / b`, truncated, for `b >= 1`.
pub open spec fn fx_div(a: int, b: int) -> Option<int>
    recommends
        b >= 1,
{
    ck(tdiv(a * sfx(), b))
}

/// Truncating division of a nonnegative value by a positive one stays
/// between zero and the dividend.
pub proof fn lemma_tdiv_nonneg(a: int, b: int)
    requires
        a >= 0,
        b >= 1,
    ensures
        0 <= tdiv(a, b) <= a,
{
    lemma_div_nonneg(a, b);
}

/// Truncating division keeps a symmetric bound: if `|a| <= c * b` then
/// `|tdiv(a, b)| <= c`.
pub proof fn lemma_tdiv_mul_bound(a: int, b: int, c: int)
    requires
        b >= 1,
        c >= 0,
        -(c * b) <= a <= c * b,
    ensures
        -c <= tdiv(a, b) <= c,
{
    vstd::arithmetic::div_mod::lemma_div_multiples_vanish(c, b);
    assert(b * c == c * b);
    assert((c * b) / b == c);
    if a >= 0 {
        lemma_div_nonneg(a, b);
        vstd::arithmetic::div_mod::lemma_div_is_ordered(a, c * b, b);
        assert(a / b <= c);
        assert(tdiv(a, b) == a / b);
    } else {
        lemma_div_nonneg(-a, b);
        vstd::arithmetic::div_mod::lemma_div_is_ordered(-a, c * b, b);
        assert((-a) / b <= c);
        assert(tdiv(a, b) == -((-a) / b));
    }
}

proof fn lemma_div_nonneg(a: int, b: int)
    requires
        a >= 0,
        b >= 1,
    ensures
        0 <= a / b <= a,
{
    assert(0 <= a / b <= a) by (nonlinear_arith)
        requires
            a >= 0,
            b >= 1,
    ;
}

/// Truncating division on `i128`, with the quotient pinned to `tdiv`.
pub(crate) fn tdiv_i128(a: i128, b: i128) -> (r: i128)
    requires
        b >= 1,
        a > i128::MIN,
    ensures
        r == tdiv(a as int, b as int),
        a >= 0 ==> 0 <= r <= a,
        a < 0 ==> a <= r <= 0,
{
    if a >= 0 {
        let q: u128 = (a as u128) / (b as u128);
        proof {
            lemma_div_nonneg(a as int, b as int);
        }
        q as i128
    } else {
        let n: i128 = -a;
        let q: u128 = (n as u128) / (b as u128);
        proof {
            lemma_div_nonneg(n as int, b as int);
        }
        -(q as i128)
    }
}

/// Exact product of two storable values, kept in `i128`.
fn wide_mul(a: i64, b: i64) -> (r: i128)
    requires
        fits(a as int),
        fits(b as int),
    ensures
        r == a as int * b as int,
        r > i128::MIN,
{
    proof {
        assert(a as int * b as int <= i64::MAX as int * i64::MAX as int
            && a as int * b as int >= -(i64::MAX as int * i64::MAX as int)) by (nonlinear_arith)
            requires
                -(i64::MAX as int) <= a as int <= i64::MAX as int,
                -(i64::MAX as int) <= b as int <= i64::MAX as int,
        ;
    }
    (a as i128) * (b as i128)
}

/// Checked range cast from the wide accumulator back to a stored value.
fn narrow(v: i128) -> (r: Option<i64>)
    ensures
        r matches Some(w) ==> ck(v as int) == Some(w as int),
        r is None ==> ck(v as int) is None,
{
    if -(i64::MAX as i128) <= v && v <= i64::MAX as i128 {
        Some(v as i64)
    } else {
        None
    }
}

/// Checked addition of stored values; `None` reports an unrepresentable sum.
pub fn fadd(a: i64, b: i64) -> (r: Option<i64>)
    requires
        fits(a as int),
        fits(b as int),
    ensures
        r matches Some(w) ==> fx_add(a as int, b as int) == Some(w as int) && fits(w as int),
        r is None ==> fx_add(a as int, b as int) is None,
{
    narrow((a as i128) + (b as i128))
}

/// Checked subtraction of stored values.
pub fn fsub(a: i64, b: i64) -> (r: Option<i64>)
    requires
        fits(a as int),
        fits(b as int),
    ensures
        r matches Some(w) ==> fx_sub(a as int, b as int) == Some(w as int) && fits(w as int),
        r is None ==> fx_sub(a as int, b as int) is None,
{
    narrow((a as i128) - (b as i128))
}

/// Checked fixed-point product of stored values.
pub fn fmul(a: i64, b: i64) -> (r: Option<i64>)
    requires
        fits(a as int),
        fits(b as int),
    ensures
        r matches Some(w) ==> fx_mul(a as int, b as int) == Some(w as int) && fits(w as int),
        r is None ==> fx_mul(a as int, b as int) is None,
{
    let p: i128 = wide_mul(a, b);
    let q: i128 = tdiv_i128(p, FX_ONE as i128);
    narrow(q)
}

/// Checked plain product of stored values (no rescaling).
pub fn fmul_raw(a: i64, b: i64) -> (r: Option<i64>)
    requires
        fits(a as int),
        fits(b as int),
    ensures
        r matches Some(w) ==> fx_mul_raw(a as int, b as int) == Some(w as int) && fits(w as int),
        r is None ==> fx_mul_raw(a as int, b as int) is None,
{
    narrow(wide_mul(a, b))
}

/// Truncating division on stored values, for a positive divisor.
pub fn tdiv64(a: i64, b: i64) -> (r: i64)
    requires
        fits(a as int),
        b >= 1,
    ensures
        r == tdiv(a as int, b as int),
        fits(r as int),
        a >= 0 ==> 0 <= r <= a,
        a < 0 ==> a <= r <= 0,
{
    let q: i128 = tdiv_i128(a as i128, b as i128);
    q as i64
}

/// The integer square root: the largest `r` with `r * r <= n`.
pub open spec fn isqrt_s(n: nat) -> nat
    decreases n,
{
    if n == 0 {
        0
    } else {
        let s = isqrt_s((n - 1) as nat);
        if (s + 1) * (s + 1) <= n {
            s + 1
        } else {
            s
        }
    }
}

/// `isqrt_s` brackets its argument between consecutive squares.
pub proof fn lemma_isqrt_s_bounds(n: nat)
    ensures
        isqrt_s(n) * isqrt_s(n) <= n,
        n < (isqrt_s(n) + 1) * (isqrt_s(n) + 1),
    decreases n,
{
    if n == 0 {
        assert(isqrt_s(0) == 0);
        assert(isqrt_s(n) * isqrt_s(n) <= n);
        let r = isqrt_s(n);
        assert(0 < (r + 1) * (r + 1)) by (nonlinear_arith)
            requires
                r >= 0,
        ;
        assert(n < (isqrt_s(n) + 1) * (isqrt_s(n) + 1));
    } else {
        let s = isqrt_s((n - 1) as nat);
        lemma_isqrt_s_bounds((n - 1) as nat);
        if (s + 1) * (s + 1) <= n {
            assert(isqrt_s(n) == s + 1);
            assert(n - 1 < (s + 1) * (s + 1));
            assert((s + 1) * (s + 1) < (s + 2) * (s + 2)) by (nonlinear_arith)
                requires
                    s >= 0,
            ;
            assert(n < (s + 2) * (s + 2));
            assert(isqrt_s(n) * isqrt_s(n) <= n);
            assert(n < (isqrt_s(n) + 1) * (isqrt_s(n) + 1));
        } else {
            assert(isqrt_s(n) == s);
            assert(s * s <= n - 1);
            assert(isqrt_s(n) * isqrt_s(n) <= n);
            assert(n < (isqrt_s(n) + 1) * (isqrt_s(n) + 1));
        }
    }
}

/// Two values bracketed by the same consecutive squares are equal.
pub proof fn lemma_isqrt_unique(n: nat, a: nat, b: nat)
    requires
        a * a <= n < (a + 1) * (a + 1),
        b * b <= n < (b + 1) * (b + 1),
    ensures
        a == b,
{
    assert(a == b) by (nonlinear_arith)
        requires
            a >= 0,
            b >= 0,
            a * a <= n < (a + 1) * (a + 1),
            b * b <= n < (b + 1) * (b + 1),
    ;
}

/// Binary-search integer square root on the wide accumulator type.
pub fn isqrt(n: u128) -> (r: u128)
    ensures
        r == isqrt_s(n as nat),
        r * r <= n,
{
    let mut lo: u128 = 0;
    let mut hi: u128 = 0x10000000000000000;
    proof {
        assert((0x10000000000000000 as int) * (0x10000000000000000 as int) > u128::MAX as int)
            by (nonlinear_arith);
    }
    while lo + 1 < hi
        invariant
            0 <= lo < hi <= 0x10000000000000000,
            lo * lo <= n as int,
            (n as int) < hi * hi,
        decreases hi - lo,
    {
        let mid: u128 = lo + (hi - lo) / 2;
        proof {
            assert(mid * mid <= u128::MAX as int) by (nonlinear_arith)
                requires
                    0 <= mid <= 0xffffffffffffffff as int,
                    u128::MAX as int == 0x10000000000000000 as int * 0x10000000000000000 as int
                        - 1,
            ;
        }
        if mid * mid <= n {
            lo = mid;
        } else {
            hi = mid;
        }
    }
    proof {
        lemma_isqrt_s_bounds(n as nat);
        lemma_isqrt_unique(n as nat, lo as nat, isqrt_s(n as nat));
    }
    lo
}

/// Checked fixed-point quotient of stored values, for a positive divisor.
pub fn fdiv(a: i64, b: i64) -> (r: Option<i64>)
    requires
        fits(a as int),
        b >= 1,
    ensures
        r matches Some(w) ==> fx_div(a as int, b as int) == Some(w as int) && fits(w as int),
        r is None ==> fx_div(a as int, b as int) is None,
{
    let p: i128 = wide_mul(a, FX_ONE);
    let q: i128 = tdiv_i128(p, b as i128);
    narrow(q)
}

} // verus!
