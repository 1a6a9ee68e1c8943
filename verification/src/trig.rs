//! Trigonometric functions on fixed-point angles in degrees.
//!
//! The sine is Bhaskara's rational approximation on each half turn: for `x`
//! in `[0, 180]` degrees the true sine is close to
//! `4 x (180 - x) / (40500 - x (180 - x))`, exactly right at 0, 30, 90, 150
//! and 180 degrees and within about 0.002 elsewhere.  The arctangent is the
//! standard quadratic approximation on the unit interval, folded by
//! `atan(u) = 90 - atan(1/u)` beyond it; its error stays under about a
//! quarter of a degree.  Angles and ratios are fixed-point scalars (scale 65536), and
//! every result is exactly specified by the spec functions below.

use vstd::prelude::*;

use crate::fixed::{fx_div, fx_div_s, tdiv, FX_ONE, SCALE};

verus! {

/// A full turn, as a fixed-point angle in degrees.
pub const DEG360_FX: i64 = 23592960;

/// Half a turn.
pub const DEG180_FX: i64 = 11796480;

/// A quarter turn.
pub const DEG90_FX: i64 = 5898240;

/// Bhaskara's sine on one half turn, carried to fixed point: the scaled
/// ratio `4 x (180 - x) / (40500 - x (180 - x))` with `x` in fixed-point
/// degrees (the literals are 180, 40500 and 1 at scale 65536 where needed).
pub open spec fn sine_half_s(x: int) -> int {
    tdiv(4 * x * (11796480 - x) * 65536, 173946175488000 - x * (11796480 - x))
}

/// The sine of a fixed-point angle in degrees: the angle reduced to one
/// turn, with the second half turn the mirror of the first.
pub open spec fn sin_deg_s(a: int) -> int {
    let r = a % 23592960;
    if r < 11796480 {
        sine_half_s(r)
    } else {
        -sine_half_s(r - 11796480)
    }
}

/// The cosine: the sine a quarter turn ahead.
pub open spec fn cos_deg_s(a: int) -> int {
    sin_deg_s(a % 23592960 + 5898240)
}

/// The tangent: sine over cosine in saturating fixed-point division.
pub open spec fn tan_deg_s(a: int) -> int {
    fx_div_s(sin_deg_s(a), cos_deg_s(a))
}

/// Arctangent of a ratio in `[0, 1]`, in degrees: `45 u` plus a quadratic
/// correction vanishing at both ends (the correction constant is about
/// 15.64 degrees at scale 65536).
pub open spec fn atan_unit_s(u: int) -> int {
    45 * u + tdiv(1025100 * u * (65536 - u), 4294967296)
}

/// Arctangent of a nonnegative ratio, folded onto the unit interval.
pub open spec fn atan_nonneg_s(u: int) -> int {
    if u <= 65536 {
        atan_unit_s(u)
    } else {
        5898240 - atan_unit_s(tdiv(4294967296, u))
    }
}

/// Arctangent of any fixed-point ratio, in fixed-point degrees; odd.
pub open spec fn atan_deg_s(u: int) -> int {
    if u >= 0 {
        atan_nonneg_s(u)
    } else {
        -atan_nonneg_s(-u)
    }
}

proof fn lemma_sine_half_decompose(x: int, m: int)
    requires
        0 <= x <= 11796480,
        m == x * (11796480 - x),
    ensures
        0 <= m <= 34789235097600,
        sine_half_s(x) == tdiv(4 * m * 65536, 173946175488000 - m),
        0 <= tdiv(4 * m * 65536, 173946175488000 - m) <= 65536,
{
    assert(0 <= m <= 34789235097600) by (nonlinear_arith)
        requires
            0 <= x <= 11796480,
            m == x * (11796480 - x),
    ;
    assert(4 * x * (11796480 - x) * 65536 == 4 * m * 65536) by (nonlinear_arith)
        requires
            m == x * (11796480 - x),
    ;
    let num = 4 * m * 65536;
    let den = 173946175488000 - m;
    assert(num >= 0);
    assert(den > 0);
    assert(tdiv(num, den) == num / den);
    assert(num <= den * 65536) by (nonlinear_arith)
        requires
            0 <= m <= 34789235097600,
            num == 4 * m * 65536,
            den == 173946175488000 - m,
    ;
    assert(0 <= num / den <= 65536) by (nonlinear_arith)
        requires
            den > 0,
            0 <= num <= den * 65536,
    ;
}

/// Bhaskara's half-turn sine, computed in `i128`.
fn sine_half(x: i64) -> (r: i64)
    requires
        0 <= x <= DEG180_FX,
    ensures
        r as int == sine_half_s(x as int),
        0 <= r <= FX_ONE,
{
    let xi: i128 = x as i128;
    proof {
        assert(0 <= (xi as int) * (11796480 - xi as int) <= 34789235097600) by (nonlinear_arith)
            requires
                0 <= xi as int <= 11796480,
        ;
    }
    let m: i128 = xi * (11796480 - xi);
    proof {
        lemma_sine_half_decompose(x as int, m as int);
    }
    let num: i128 = 4 * m * 65536;
    let den: i128 = 173946175488000 - m;
    let q: i128 = crate::fixed::div_i128(num, den);
    q as i64
}

/// The sine of a fixed-point angle in degrees.
pub fn sin_deg(a: i64) -> (r: i64)
    ensures
        r as int == sin_deg_s(a as int),
        -FX_ONE <= r <= FX_ONE,
{
    let r = match a.checked_rem_euclid(DEG360_FX) {
        Some(v) => v,
        None => 0,
    };
    if r < DEG180_FX {
        sine_half(r)
    } else {
        let q = sine_half(r - DEG180_FX);
        -q
    }
}

/// The cosine of a fixed-point angle in degrees.
pub fn cos_deg(a: i64) -> (r: i64)
    ensures
        r as int == cos_deg_s(a as int),
        -FX_ONE <= r <= FX_ONE,
{
    let r = match a.checked_rem_euclid(DEG360_FX) {
        Some(v) => v,
        None => 0,
    };
    sin_deg(r + DEG90_FX)
}

/// The tangent of a fixed-point angle in degrees.
pub fn tan_deg(a: i64) -> (r: i64)
    ensures
        r as int == tan_deg_s(a as int),
{
    let s = sin_deg(a);
    let c = cos_deg(a);
    fx_div(s, c)
}

proof fn lemma_atan_unit_decompose(u: int, m: int)
    requires
        0 <= u <= 65536,
        m == u * (65536 - u),
    ensures
        0 <= m <= 1073741824,
        atan_unit_s(u) == 45 * u + tdiv(1025100 * m, 4294967296),
        0 <= tdiv(1025100 * m, 4294967296) <= 256275,
        0 <= atan_unit_s(u) < 5898240,
{
    assert(0 <= m <= 1073741824) by (nonlinear_arith)
        requires
            0 <= u <= 65536,
            m == u * (65536 - u),
    ;
    assert(1025100 * u * (65536 - u) == 1025100 * m) by (nonlinear_arith)
        requires
            m == u * (65536 - u),
    ;
    let num = 1025100 * m;
    assert(tdiv(num, 4294967296) == num / 4294967296);
    assert(0 <= num / 4294967296 <= 256275) by (nonlinear_arith)
        requires
            0 <= num <= 1025100 * 1073741824,
    ;
}

/// The unit-interval arctangent, computed in `i128`.
fn atan_unit(u: i64) -> (r: i64)
    requires
        0 <= u <= SCALE,
    ensures
        r as int == atan_unit_s(u as int),
        0 <= r < DEG90_FX,
{
    let ui: i128 = u as i128;
    proof {
        assert(0 <= (ui as int) * (65536 - ui as int) <= 1073741824) by (nonlinear_arith)
            requires
                0 <= ui as int <= 65536,
        ;
    }
    let m: i128 = ui * (65536 - ui);
    proof {
        lemma_atan_unit_decompose(u as int, m as int);
    }
    let num: i128 = 1025100 * m;
    let q: i128 = crate::fixed::div_i128(num, 4294967296);
    45 * u + (q as i64)
}

/// The arctangent of a nonnegative ratio.
fn atan_nonneg(u: i64) -> (r: i64)
    requires
        u >= 0,
    ensures
        r as int == atan_nonneg_s(u as int),
        0 <= r <= DEG90_FX,
{
    if u <= SCALE {
        atan_unit(u)
    } else {
        let inv: i128 = crate::fixed::div_i128(4294967296, u as i128);
        proof {
            assert(0 <= 4294967296int / (u as int) < 65536) by (nonlinear_arith)
                requires
                    u as int > 65536,
            ;
        }
        let a = atan_unit(inv as i64);
        DEG90_FX - a
    }
}

/// The sine and cosine of the zero angle are exactly zero and one.
pub proof fn lemma_sin_cos_zero()
    ensures
        sin_deg_s(0) == 0,
        cos_deg_s(0) == 65536,
{
    assert(0int % 23592960 == 0) by (nonlinear_arith);
    assert(4 * 0 * (11796480 - 0) * 65536 == 0) by (nonlinear_arith);
    assert(0int / 173946175488000 == 0) by (nonlinear_arith);
    assert(sine_half_s(0) == 0);

    assert(5898240int % 23592960 == 5898240) by (nonlinear_arith);
    assert(5898240 * (11796480 - 5898240) == 34789235097600int) by (nonlinear_arith);
    assert(4 * 5898240 * (11796480 - 5898240) * 65536 == 9119789245425254400int)
        by (nonlinear_arith);
    assert(9119789245425254400int / 139156940390400 == 65536) by (nonlinear_arith);
    assert(tdiv(9119789245425254400, 139156940390400) == 65536);
    assert(sine_half_s(5898240) == 65536);
    assert(cos_deg_s(0) == sin_deg_s(0int % 23592960 + 5898240));
}

/// The arctangent of any fixed-point ratio, in fixed-point degrees.
pub fn atan_deg(u: i64) -> (r: i64)
    ensures
        r as int == atan_deg_s(u as int),
        -DEG90_FX <= r <= DEG90_FX,
{
    if u >= 0 {
        atan_nonneg(u)
    } else if u == i64::MIN {
        let a = atan_nonneg(i64::MAX);
        proof {
            assert(tdiv(4294967296, 9223372036854775807) == 0);
            assert(tdiv(4294967296, 9223372036854775808) == 0);
        }
        -a
    } else {
        let a = atan_nonneg(-u);
        -a
    }
}

} // verus!
