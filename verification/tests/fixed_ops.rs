//! Fixed-point scalar arithmetic behavior.

use gloom::fixed::{
    div_trunc, fx_abs, fx_add, fx_clamp, fx_div, fx_mul, fx_neg, fx_sub, isqrt64, rem_trunc,
    FX_MAX, FX_ONE,
};
use gloom::trig::{wrap_angle, TWO_PI_FX};

#[test]
fn add_and_sub_are_exact_in_range() {
    assert_eq!(fx_add(65536, 65536), 131072);
    assert_eq!(fx_sub(65536, 131072), -65536);
    assert_eq!(fx_add(-5, 5), 0);
}

#[test]
fn add_saturates_at_the_limit() {
    assert_eq!(fx_add(FX_MAX, FX_MAX), FX_MAX);
    assert_eq!(fx_sub(-FX_MAX, FX_MAX), -FX_MAX);
}

#[test]
fn mul_scales_by_one() {
    // 1.0 * x == x and 0.5 * 3.0 == 1.5.
    assert_eq!(fx_mul(FX_ONE, 424242), 424242);
    assert_eq!(fx_mul(32768, 196608), 98304);
}

#[test]
fn mul_truncates_toward_zero() {
    // (-1/65536) * (1/65536) is a tiny negative value; truncation toward
    // zero gives exactly zero, not -1.
    assert_eq!(fx_mul(-1, 1), 0);
    assert_eq!(fx_mul(1, -1), 0);
}

#[test]
fn div_matches_rust_truncating_division() {
    assert_eq!(div_trunc(7, 2), 3);
    assert_eq!(div_trunc(-7, 2), -3);
    assert_eq!(rem_trunc(7, 2), 1);
    assert_eq!(rem_trunc(-7, 2), -1);
}

#[test]
fn fx_div_divides_real_values() {
    // 3.0 / 2 == 1.5 in fixed point.
    assert_eq!(fx_div(196608, 131072), 98304);
}

#[test]
fn clamp_abs_neg() {
    assert_eq!(fx_clamp(10, -5, 5), 5);
    assert_eq!(fx_clamp(-10, -5, 5), -5);
    assert_eq!(fx_clamp(3, -5, 5), 3);
    assert_eq!(fx_abs(-42), 42);
    assert_eq!(fx_neg(42), -42);
}

#[test]
fn integer_square_root_brackets() {
    assert_eq!(isqrt64(0), 0);
    assert_eq!(isqrt64(1), 1);
    assert_eq!(isqrt64(15), 3);
    assert_eq!(isqrt64(16), 4);
    assert_eq!(isqrt64(0xFFFF_FFFF_FFFF_FFFF), 0xFFFF_FFFF);
}

#[test]
fn wrap_angle_lands_in_one_turn() {
    assert_eq!(wrap_angle(0), 0);
    assert_eq!(wrap_angle(TWO_PI_FX), 0);
    assert_eq!(wrap_angle(TWO_PI_FX + 7), 7);
    assert_eq!(wrap_angle(-7), TWO_PI_FX - 7);
    let w = wrap_angle(-987654321);
    assert!(0 <= w && w < TWO_PI_FX);
}
