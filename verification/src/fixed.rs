//! Fixed-point arithmetic for the animation math.
//!
//! Every continuous quantity of the engine (pixel positions, noise
//! amplitudes, progress ratios) is a fixed-point `i64` holding the real
//! value times [`SCALE`].  Division truncates toward zero, like the
//! rounding of a hardware multiply-accumulate; the spec functions below
//! fix that choice exactly.

use vstd::arithmetic::div_mod::{lemma_div_is_ordered, lemma_div_pos_is_pos};
use vstd::prelude::*;

use crate::constants::SCALE;

verus! {

/// `v * t / ts` truncated toward zero, the scaled product of a value
/// with a ratio `t / ts`.
pub open spec fn sp_mul_ratio(v: int, t: int, ts: int) -> int {
    if v >= 0 {
        v * t / ts
    } else {
        -((-v) * t / ts)
    }
}

/// Linear interpolation from `a` to `b` by the ratio `t / ts`.
pub open spec fn sp_lerp(a: int, b: int, t: int, ts: int) -> int {
    if b >= a {
        a + sp_mul_ratio(b - a, t, ts)
    } else {
        a - sp_mul_ratio(a - b, t, ts)
    }
}

/// The whole pixel nearest to the fixed-point value `v`, halves away
/// from zero.
pub open spec fn sp_round_px(v: int) -> int {
    if v >= 0 {
        (v + SCALE / 2) / (SCALE as int)
    } else {
        -(((-v) + SCALE / 2) / (SCALE as int))
    }
}

/// `sp_round_px` back at fixed-point scale: the rounded pixel times `SCALE`.
pub open spec fn sp_round_fixed(v: int) -> int {
    sp_round_px(v) * SCALE
}

/// A ratio never scales a value past itself: for `0 <= t <= ts` the
/// scaled product stays between 0 and `v`.
pub proof fn lemma_mul_ratio_in_range(v: int, t: int, ts: int)
    requires
        ts > 0,
        0 <= t <= ts,
    ensures
        v >= 0 ==> 0 <= sp_mul_ratio(v, t, ts) <= v,
        v < 0 ==> v <= sp_mul_ratio(v, t, ts) <= 0,
{
    let m = if v >= 0 {
        v
    } else {
        -v
    };
    assert(m * t <= m * ts) by (nonlinear_arith)
        requires
            m >= 0,
            t <= ts,
    ;
    lemma_div_is_ordered(m * t, m * ts, ts);
    assert(m * ts / ts == m) by (nonlinear_arith)
        requires
            ts > 0,
    ;
    assert(m * t >= 0) by (nonlinear_arith)
        requires
            m >= 0,
            t >= 0,
    ;
    lemma_div_pos_is_pos(m * t, ts);
}

/// A quotient of a bounded non-negative value is bounded: if
/// `x <= b * d` then `x / d <= b`.
pub proof fn lemma_div_bound(x: int, b: int, d: int)
    requires
        d > 0,
        0 <= x,
        x <= b * d,
    ensures
        0 <= x / d <= b,
{
    lemma_div_pos_is_pos(x, d);
    lemma_div_is_ordered(x, b * d, d);
    vstd::arithmetic::div_mod::lemma_div_multiples_vanish(b, d);
    assert(b * d == d * b) by (nonlinear_arith);
}

/// The scaled product is bounded by `b` whenever `|v| * t <= b * ts`.
pub proof fn lemma_mul_ratio_bound(v: int, t: int, ts: int, b: int)
    requires
        ts > 0,
        t >= 0,
        b >= 0,
        (if v >= 0 {
            v
        } else {
            -v
        }) * t <= b * ts,
    ensures
        -b <= sp_mul_ratio(v, t, ts) <= b,
{
    let m = if v >= 0 {
        v
    } else {
        -v
    };
    assert(m * t >= 0) by (nonlinear_arith)
        requires
            m >= 0,
            t >= 0,
    ;
    lemma_div_bound(m * t, b, ts);
}

/// Interpolation stays within the interval spanned by its endpoints.
pub proof fn lemma_lerp_in_range(a: int, b: int, t: int, ts: int)
    requires
        ts > 0,
        0 <= t <= ts,
    ensures
        a <= b ==> a <= sp_lerp(a, b, t, ts) <= b,
        a > b ==> b <= sp_lerp(a, b, t, ts) <= a,
{
    if b >= a {
        lemma_mul_ratio_in_range(b - a, t, ts);
    } else {
        lemma_mul_ratio_in_range(a - b, t, ts);
    }
}

/// At `t == 0` interpolation returns the start, at `t == ts` the end.
pub proof fn lemma_lerp_endpoints(a: int, b: int, ts: int)
    requires
        ts > 0,
    ensures
        sp_lerp(a, b, 0, ts) == a,
        sp_lerp(a, b, ts, ts) == b,
{
    let d = if b >= a {
        b - a
    } else {
        a - b
    };
    assert(d * 0 / ts == 0) by (nonlinear_arith)
        requires
            ts > 0,
    ;
    assert(d * ts / ts == d) by (nonlinear_arith)
        requires
            ts > 0,
    ;
}

/// Multiplies `v` by the ratio `t / ts`, truncating toward zero.
pub fn mul_ratio(v: i64, t: i64, ts: i64) -> (r: i64)
    requires
        ts > 0,
        t >= 0,
        -i64::MAX <= v,
        v * t <= i64::MAX,
        -i64::MAX <= v * t,
    ensures
        r == sp_mul_ratio(v as int, t as int, ts as int),
{
    if v >= 0 {
        (v * t) / ts
    } else {
        proof {
            assert((-v) * t == -(v * t)) by (nonlinear_arith);
        }
        -(((-v) * t) / ts)
    }
}

/// Interpolates from `a` to `b` by the ratio `t / ts`.
pub fn lerp_fixed(a: i64, b: i64, t: i64, ts: i64) -> (r: i64)
    requires
        ts > 0,
        0 <= t <= ts,
        -i64::MAX < a,
        -i64::MAX < b,
        -i64::MAX <= b - a <= i64::MAX,
        (b - a) * t <= i64::MAX,
        -i64::MAX <= (b - a) * t,
    ensures
        r == sp_lerp(a as int, b as int, t as int, ts as int),
        a <= b ==> a <= r <= b,
        a > b ==> b <= r <= a,
{
    proof {
        lemma_lerp_in_range(a as int, b as int, t as int, ts as int);
        assert((a - b) * t == -((b - a) * t)) by (nonlinear_arith);
    }
    if b >= a {
        let d: i64 = b - a;
        a + mul_ratio(d, t, ts)
    } else {
        let d: i64 = a - b;
        a - mul_ratio(d, t, ts)
    }
}

/// Rounds a fixed-point value to the nearest whole pixel, halves away
/// from zero; the result is again fixed-point, a multiple of `SCALE`.
pub fn round_fixed(v: i64) -> (r: i64)
    requires
        -1_000_000_000_000_000 <= v <= 1_000_000_000_000_000,
    ensures
        r == sp_round_fixed(v as int),
{
    if v >= 0 {
        ((v + SCALE / 2) / SCALE) * SCALE
    } else {
        let m: i64 = -v;
        proof {
            lemma_div_pos_is_pos(m + SCALE / 2, SCALE as int);
            lemma_div_is_ordered(m + SCALE / 2, 2_000_000_000_000_000, SCALE as int);
        }
        -(((m + SCALE / 2) / SCALE) * SCALE)
    }
}

} // verus!
