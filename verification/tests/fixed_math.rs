//! The fixed-point scalar operations and the trigonometric tables on
//! concrete values.

use graphics_engine::fixed::{
    fx_add, fx_div, fx_from_int, fx_max, fx_min, fx_mul, fx_neg, fx_round, fx_sqrt, fx_sub,
    FX_MAX, FX_MIN, FX_ONE,
};
use graphics_engine::trig::{atan_deg, cos_deg, sin_deg, tan_deg, DEG90_FX};

const HALF: i64 = 32768;

#[test]
fn add_sub_mul_div_on_small_values() {
    assert_eq!(fx_add(FX_ONE, HALF), 98304);
    assert_eq!(fx_sub(FX_ONE, HALF), HALF);
    assert_eq!(fx_mul(98304, 131072), 196608); // 1.5 * 2 == 3
    assert_eq!(fx_mul(-98304, 131072), -196608);
    assert_eq!(fx_div(FX_ONE, 131072), HALF); // 1 / 2 == 0.5
    assert_eq!(fx_div(-FX_ONE, 131072), -HALF);
    assert_eq!(fx_neg(196608), -196608);
}

#[test]
fn multiplication_truncates_toward_zero() {
    // 1/65536 * 1/65536 rounds down to zero.
    assert_eq!(fx_mul(1, 1), 0);
    assert_eq!(fx_mul(-1, 1), 0);
}

#[test]
fn division_by_zero_is_zero() {
    assert_eq!(fx_div(FX_ONE, 0), 0);
    assert_eq!(fx_div(0, 0), 0);
}

#[test]
fn saturation_at_the_range_ends() {
    assert_eq!(fx_add(FX_MAX, FX_MAX), FX_MAX);
    assert_eq!(fx_sub(FX_MIN, FX_MAX), FX_MIN);
    assert_eq!(fx_mul(FX_MAX, FX_MAX), FX_MAX);
    assert_eq!(fx_neg(i64::MIN), FX_MAX);
    assert_eq!(fx_from_int(i64::MAX), FX_MAX);
}

#[test]
fn min_max_and_from_int() {
    assert_eq!(fx_min(3, -5), -5);
    assert_eq!(fx_max(3, -5), 3);
    assert_eq!(fx_from_int(3), 196608);
    assert_eq!(fx_from_int(-2), -131072);
}

#[test]
fn rounding_half_away_from_zero() {
    assert_eq!(fx_round(HALF), 1);
    assert_eq!(fx_round(-HALF), -1);
    assert_eq!(fx_round(HALF - 1), 0);
    assert_eq!(fx_round(FX_ONE + HALF), 2);
    assert_eq!(fx_round(-(FX_ONE + HALF)), -2);
    assert_eq!(fx_round(0), 0);
}

#[test]
fn square_roots() {
    assert_eq!(fx_sqrt(4 * FX_ONE), 2 * FX_ONE);
    assert_eq!(fx_sqrt(FX_ONE), FX_ONE);
    assert_eq!(fx_sqrt(0), 0);
    assert_eq!(fx_sqrt(-FX_ONE), 0);
    // sqrt(2) to the last fixed-point digit.
    assert_eq!(fx_sqrt(2 * FX_ONE), 92681);
}

#[test]
fn sine_at_the_exact_anchors() {
    assert_eq!(sin_deg(0), 0);
    assert_eq!(sin_deg(30 * FX_ONE), HALF);
    assert_eq!(sin_deg(90 * FX_ONE), FX_ONE);
    assert_eq!(sin_deg(150 * FX_ONE), HALF);
    assert_eq!(sin_deg(180 * FX_ONE), 0);
    assert_eq!(sin_deg(-30 * FX_ONE), -HALF);
    assert_eq!(sin_deg(270 * FX_ONE), -FX_ONE);
    assert_eq!(sin_deg(390 * FX_ONE), HALF);
}

#[test]
fn cosine_at_the_exact_anchors() {
    assert_eq!(cos_deg(0), FX_ONE);
    assert_eq!(cos_deg(60 * FX_ONE), HALF);
    assert_eq!(cos_deg(90 * FX_ONE), 0);
    assert_eq!(cos_deg(180 * FX_ONE), -FX_ONE);
    assert_eq!(cos_deg(-60 * FX_ONE), HALF);
}

#[test]
fn sine_stays_close_to_the_true_sine() {
    // Sweep whole degrees; Bhaskara's approximation stays within 0.002.
    for d in -360..=360 {
        let s = sin_deg(d * FX_ONE) as f64 / 65536.0;
        let truth = (d as f64).to_radians().sin();
        assert!((s - truth).abs() < 0.002, "sin({}) = {} vs {}", d, s, truth);
    }
}

#[test]
fn tangent_and_arctangent() {
    assert_eq!(tan_deg(45 * FX_ONE), FX_ONE);
    assert_eq!(tan_deg(0), 0);
    assert_eq!(atan_deg(FX_ONE), 45 * FX_ONE);
    assert_eq!(atan_deg(0), 0);
    assert_eq!(atan_deg(-FX_ONE), -45 * FX_ONE);
    // atan of a huge ratio approaches a quarter turn.
    assert_eq!(atan_deg(i64::MAX), DEG90_FX);
    assert_eq!(atan_deg(i64::MIN), -DEG90_FX);
    // Round trip through the tangent within a third of a degree.
    for d in 1..89 {
        let back = atan_deg(tan_deg(d * FX_ONE)) as f64 / 65536.0;
        assert!((back - d as f64).abs() < 0.34, "atan(tan({})) = {}", d, back);
    }
}
