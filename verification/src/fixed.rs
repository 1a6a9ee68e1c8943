//! Saturating fixed-point scalars.
//!
//! Every coordinate, depth and angle in the pipeline is an `i64` holding a
//! real number scaled by [`SCALE`] (so [`FX_ONE`] is the real number one).
//! Products and quotients are computed in `i128`, truncated toward zero, and
//! saturated to `[FX_MIN, FX_MAX]`, so every operation is total and has an
//! exact specification; no operation panics or overflows.

use vstd::prelude::*;

verus! {

/// Number of units per real one: the fixed-point scale factor.
pub const SCALE: i64 = 65536;

/// The real number one.
pub const FX_ONE: i64 = 65536;

/// Largest representable scalar.
pub const FX_MAX: i64 = i64::MAX;

/// Smallest representable scalar; symmetric to [`FX_MAX`] so that negation
/// is always exact.
pub const FX_MIN: i64 = -i64::MAX;

/// Saturate a mathematical integer into the representable range.
pub open spec fn sat(x: int) -> int {
    if x > FX_MAX as int {
        FX_MAX as int
    } else if x < FX_MIN as int {
        FX_MIN as int
    } else {
        x
    }
}

/// Division truncated toward zero (the rounding of Rust's `/`), total:
/// division by zero is defined as zero.
pub open spec fn tdiv(x: int, d: int) -> int {
    if d == 0 {
        0
    } else if x >= 0 && d > 0 {
        x / d
    } else if x <= 0 && d < 0 {
        (-x) / (-d)
    } else if x < 0 && d > 0 {
        -((-x) / d)
    } else {
        -(x / (-d))
    }
}

/// The sum of two scalars, saturated.
pub open spec fn fx_add_s(a: int, b: int) -> int {
    sat(a + b)
}

/// The difference of two scalars, saturated.
pub open spec fn fx_sub_s(a: int, b: int) -> int {
    sat(a - b)
}

/// The negation of a scalar, saturated.
pub open spec fn fx_neg_s(a: int) -> int {
    sat(-a)
}

/// The product of two scalars: the integer product rescaled by [`SCALE`],
/// truncated toward zero, saturated.
pub open spec fn fx_mul_s(a: int, b: int) -> int {
    sat(tdiv(a * b, SCALE as int))
}

/// The quotient of two scalars: the dividend rescaled by [`SCALE`],
/// truncated toward zero, saturated; zero when the divisor is zero.
pub open spec fn fx_div_s(a: int, b: int) -> int {
    if b == 0 {
        0
    } else {
        sat(tdiv(a * SCALE as int, b))
    }
}

/// A real value rounded to the nearest integer number of pixels, half away
/// from zero (the rounding of `f32::round`).
pub open spec fn fx_round_s(a: int) -> int {
    if a >= 0 {
        (a + (SCALE as int) / 2) / (SCALE as int)
    } else {
        -((-a + (SCALE as int) / 2) / (SCALE as int))
    }
}

proof fn lemma_i64_product_in_i128(a: int, b: int)
    requires
        i64::MIN <= a <= i64::MAX,
        i64::MIN <= b <= i64::MAX,
    ensures
        i128::MIN < a * b <= i128::MAX,
{
    assert(i64::MIN <= a <= i64::MAX && i64::MIN <= b <= i64::MAX ==> a * b
        <= 0x8000_0000_0000_0000 * 0x8000_0000_0000_0000 && a * b >= -(
    0x8000_0000_0000_0000 * 0x8000_0000_0000_0000)) by (nonlinear_arith);
}

proof fn lemma_tdiv_shrinks(x: int, d: int)
    requires
        d >= 1,
        x > i128::MIN,
    ensures
        x >= 0 ==> 0 <= tdiv(x, d) <= x,
        x < 0 ==> x <= tdiv(x, d) <= 0,
{
    if x >= 0 {
        assert(0 <= x / d <= x) by (nonlinear_arith)
            requires
                d >= 1,
                x >= 0,
        ;
    } else {
        assert(0 <= (-x) / d <= -x) by (nonlinear_arith)
            requires
                d >= 1,
                x < 0,
        ;
    }
}

/// Saturate an `i128` intermediate into the scalar range.
pub(crate) fn sat_i128(x: i128) -> (r: i64)
    ensures
        r as int == sat(x as int),
{
    if x > FX_MAX as i128 {
        FX_MAX
    } else if x < FX_MIN as i128 {
        FX_MIN
    } else {
        x as i64
    }
}

/// Division of an `i128` by a positive `i128`, truncated toward zero.
pub(crate) fn div_i128(x: i128, d: i128) -> (r: i128)
    requires
        d >= 1,
        x > i128::MIN,
    ensures
        r as int == tdiv(x as int, d as int),
        x >= 0 ==> 0 <= r <= x,
        x < 0 ==> x <= r <= 0,
{
    proof {
        lemma_tdiv_shrinks(x as int, d as int);
    }
    if x >= 0 {
        let q: u128 = (x as u128) / (d as u128);
        q as i128
    } else {
        let q: u128 = ((-x) as u128) / (d as u128);
        -(q as i128)
    }
}

/// Saturating fixed-point addition.
pub fn fx_add(a: i64, b: i64) -> (r: i64)
    ensures
        r as int == fx_add_s(a as int, b as int),
{
    sat_i128(a as i128 + b as i128)
}

/// Saturating fixed-point subtraction.
pub fn fx_sub(a: i64, b: i64) -> (r: i64)
    ensures
        r as int == fx_sub_s(a as int, b as int),
{
    sat_i128(a as i128 - b as i128)
}

/// Saturating fixed-point negation.
pub fn fx_neg(a: i64) -> (r: i64)
    ensures
        r as int == fx_neg_s(a as int),
{
    sat_i128(-(a as i128))
}

/// Saturating fixed-point multiplication.
pub fn fx_mul(a: i64, b: i64) -> (r: i64)
    ensures
        r as int == fx_mul_s(a as int, b as int),
{
    proof {
        lemma_i64_product_in_i128(a as int, b as int);
    }
    let p: i128 = (a as i128) * (b as i128);
    sat_i128(div_i128(p, SCALE as i128))
}

/// Saturating fixed-point division; zero when the divisor is zero.
pub fn fx_div(a: i64, b: i64) -> (r: i64)
    ensures
        r as int == fx_div_s(a as int, b as int),
{
    if b == 0 {
        return 0;
    }
    proof {
        lemma_i64_product_in_i128(a as int, SCALE as int);
    }
    let p: i128 = (a as i128) * (SCALE as i128);
    if b > 0 {
        sat_i128(div_i128(p, b as i128))
    } else {
        let q = div_i128(p, -(b as i128));
        proof {
            assert(tdiv(p as int, b as int) == -tdiv(p as int, -(b as int)));
        }
        sat_i128(-q)
    }
}

/// The smaller of two scalars.
pub fn fx_min(a: i64, b: i64) -> (r: i64)
    ensures
        r == if a <= b {
            a
        } else {
            b
        },
{
    if a <= b {
        a
    } else {
        b
    }
}

/// The larger of two scalars.
pub fn fx_max(a: i64, b: i64) -> (r: i64)
    ensures
        r == if a >= b {
            a
        } else {
            b
        },
{
    if a >= b {
        a
    } else {
        b
    }
}

/// An integer as a scalar, saturated.
pub fn fx_from_int(n: i64) -> (r: i64)
    ensures
        r as int == sat(n * SCALE as int),
{
    proof {
        lemma_i64_product_in_i128(n as int, SCALE as int);
    }
    sat_i128((n as i128) * (SCALE as i128))
}

/// Multiplying by one is exact on every representable scalar.
pub proof fn lemma_fx_mul_one(a: int)
    requires
        FX_MIN <= a <= FX_MAX,
    ensures
        fx_mul_s(a, FX_ONE as int) == a,
        fx_mul_s(FX_ONE as int, a) == a,
{
    assert(a * 65536 == 65536 * a) by (nonlinear_arith);
    if a >= 0 {
        assert((a * 65536) / 65536 == a) by (nonlinear_arith)
            requires
                a >= 0,
        ;
        assert(tdiv(a * 65536, 65536) == a);
    } else {
        assert((-(a * 65536)) == (-a) * 65536) by (nonlinear_arith);
        assert(((-a) * 65536) / 65536 == -a) by (nonlinear_arith)
            requires
                a < 0,
        ;
        assert(a * 65536 < 0) by (nonlinear_arith)
            requires
                a < 0,
        ;
        assert(tdiv(a * 65536, 65536) == a);
    }
}

/// Multiplying by zero gives zero.
pub proof fn lemma_fx_mul_zero(a: int)
    ensures
        fx_mul_s(a, 0) == 0,
        fx_mul_s(0, a) == 0,
{
    assert(a * 0 == 0) by (nonlinear_arith);
    assert(0 * a == 0) by (nonlinear_arith);
    assert(tdiv(0, 65536) == 0);
}

/// Fixed-point multiplication is commutative.
pub proof fn lemma_fx_mul_comm(a: int, b: int)
    ensures
        fx_mul_s(a, b) == fx_mul_s(b, a),
{
    assert(a * b == b * a) by (nonlinear_arith);
}

/// Multiplying by negative one negates exactly on every representable
/// scalar.
pub proof fn lemma_fx_mul_neg_one(a: int)
    requires
        FX_MIN <= a <= FX_MAX,
    ensures
        fx_mul_s(a, -65536) == -a,
        fx_mul_s(-65536, a) == -a,
{
    assert(a * -65536 == -65536 * a) by (nonlinear_arith);
    if a >= 0 {
        assert(a * -65536 == -(a * 65536)) by (nonlinear_arith);
        assert((a * 65536) / 65536 == a) by (nonlinear_arith)
            requires
                a >= 0,
        ;
        assert(a * 65536 >= 0) by (nonlinear_arith)
            requires
                a >= 0,
        ;
        if a == 0 {
            assert(tdiv(a * -65536, 65536) == 0);
        } else {
            assert(tdiv(a * -65536, 65536) == -a);
        }
    } else {
        assert(a * -65536 == (-a) * 65536) by (nonlinear_arith);
        assert(((-a) * 65536) / 65536 == -a) by (nonlinear_arith)
            requires
                a < 0,
        ;
        assert((-a) * 65536 > 0) by (nonlinear_arith)
            requires
                a < 0,
        ;
        assert(tdiv(a * -65536, 65536) == -a);
    }
}

/// A zero dividend gives a zero quotient, whatever the divisor.
pub proof fn lemma_fx_div_zero(b: int)
    ensures
        fx_div_s(0, b) == 0,
{
    if b > 0 {
        assert(0int / b == 0) by (nonlinear_arith)
            requires
                b > 0,
        ;
        assert(tdiv(0, b) == 0);
    } else if b < 0 {
        assert(0int / (-b) == 0) by (nonlinear_arith)
            requires
                b < 0,
        ;
        assert(tdiv(0, b) == 0);
    }
}

/// The integer square root: the largest `r` with `r * r <= x`, defined by
/// the classical digit recurrence.
pub open spec fn isqrt_s(x: nat) -> nat
    decreases x,
{
    if x == 0 {
        0
    } else {
        let r = 2 * isqrt_s((x / 4) as nat);
        if (r + 1) * (r + 1) <= x {
            r + 1
        } else {
            r
        }
    }
}

/// The fixed-point square root of a scalar: the integer square root of the
/// value rescaled by [`SCALE`]; zero on nonpositive input.
pub open spec fn fx_sqrt_s(a: int) -> int {
    if a <= 0 {
        0
    } else {
        isqrt_s((a * 65536) as nat) as int
    }
}

proof fn lemma_isqrt_s_bounds(x: nat)
    ensures
        isqrt_s(x) * isqrt_s(x) <= x,
        x < (isqrt_s(x) + 1) * (isqrt_s(x) + 1),
    decreases x,
{
    if x == 0 {
        assert(isqrt_s(x) * isqrt_s(x) <= x && x < (isqrt_s(x) + 1) * (isqrt_s(x)
            + 1)) by (nonlinear_arith)
            requires
                x == 0,
                isqrt_s(x) == 0,
        ;
    } else {
        let q = (x / 4) as nat;
        lemma_isqrt_s_bounds(q);
        let h = isqrt_s(q);
        let r = 2 * h;
        assert(4 * q <= x < 4 * (q + 1)) by (nonlinear_arith)
            requires
                q == x / 4,
                x >= 0,
        ;
        assert(r * r <= 4 * q) by (nonlinear_arith)
            requires
                h * h <= q,
                r == 2 * h,
        ;
        assert(x < (r + 2) * (r + 2)) by (nonlinear_arith)
            requires
                q < (h + 1) * (h + 1),
                x < 4 * (q + 1),
                r == 2 * h,
        ;
        if (r + 1) * (r + 1) <= x {
            assert(isqrt_s(x) == r + 1);
            assert(isqrt_s(x) * isqrt_s(x) <= x) by (nonlinear_arith)
                requires
                    isqrt_s(x) == r + 1,
                    (r + 1) * (r + 1) <= x,
            ;
            assert(x < (isqrt_s(x) + 1) * (isqrt_s(x) + 1)) by (nonlinear_arith)
                requires
                    isqrt_s(x) == r + 1,
                    x < (r + 2) * (r + 2),
            ;
        } else {
            assert(isqrt_s(x) == r);
            assert(isqrt_s(x) * isqrt_s(x) <= x) by (nonlinear_arith)
                requires
                    isqrt_s(x) == r,
                    r * r <= 4 * q,
                    4 * q <= x,
            ;
            assert(x < (isqrt_s(x) + 1) * (isqrt_s(x) + 1));
        }
    }
}

proof fn lemma_isqrt_unique(x: nat, r: nat)
    requires
        r * r <= x,
        x < (r + 1) * (r + 1),
    ensures
        r == isqrt_s(x),
{
    lemma_isqrt_s_bounds(x);
    let s = isqrt_s(x);
    if r < s {
        assert(false) by (nonlinear_arith)
            requires
                r < s,
                s * s <= x,
                x < (r + 1) * (r + 1),
        ;
    }
    if s < r {
        assert(false) by (nonlinear_arith)
            requires
                s < r,
                r * r <= x,
                x < (s + 1) * (s + 1),
        ;
    }
}

/// The fixed-point square root, by binary search on the integer root.
pub fn fx_sqrt(a: i64) -> (r: i64)
    ensures
        r as int == fx_sqrt_s(a as int),
        r >= 0,
{
    if a <= 0 {
        return 0;
    }
    let x: u128 = (a as u128) * 65536;
    let mut lo: u128 = 0;
    let mut hi: u128 = 0x100_0000_0000;
    proof {
        assert(x < 0x100_0000_0000 * 0x100_0000_0000);
    }
    while lo + 1 < hi
        invariant
            lo < hi <= 0x100_0000_0000,
            (lo as int) * (lo as int) <= x as int,
            (x as int) < (hi as int) * (hi as int),
        decreases hi - lo,
    {
        let mid = lo + (hi - lo) / 2;
        proof {
            assert((mid as int) * (mid as int) <= 0x1_0000_0000_0000_0000_0000
                as int) by (nonlinear_arith)
                requires
                    0 <= mid as int <= 0x100_0000_0000,
            ;
        }
        if mid * mid <= x {
            lo = mid;
        } else {
            hi = mid;
        }
    }
    proof {
        lemma_isqrt_unique(x as nat, lo as nat);
        assert(lo < 0x100_0000_0000);
    }
    lo as i64
}

/// A scalar rounded to the nearest integer, half away from zero.
pub fn fx_round(a: i64) -> (r: i64)
    ensures
        r as int == fx_round_s(a as int),
{
    let h: i128 = (SCALE as i128) / 2;
    if a >= 0 {
        div_i128(a as i128 + h, SCALE as i128) as i64
    } else {
        let q = div_i128(-(a as i128) + h, SCALE as i128);
        (-q) as i64
    }
}

} // verus!
