//! Trigonometry accuracy and matrix behavior.

use gloom::fixed::FX_ONE;
use gloom::mat::{
    homog, identity, mat_mul, mat_vec4, rot_z, translation, vec3, xyz, Vec3,
};
use gloom::trig::{fx_atan2, fx_cos, fx_mag2, fx_mag3, fx_sin, HALF_PI_FX, PI_FX, QUARTER_PI_FX};

fn close(a: i64, b: i64, tol: i64) -> bool {
    (a - b).abs() <= tol
}

#[test]
fn sine_and_cosine_special_values() {
    assert_eq!(fx_sin(0), 0);
    assert_eq!(fx_cos(0), FX_ONE);
    assert!(close(fx_sin(HALF_PI_FX), FX_ONE, 80));
    assert!(close(fx_cos(HALF_PI_FX), 0, 80));
    assert!(close(fx_sin(PI_FX), 0, 80));
    assert!(close(fx_cos(PI_FX), -FX_ONE, 80));
}

#[test]
fn sine_is_periodic_and_odd() {
    let x: i64 = 50000;
    assert_eq!(fx_sin(x + 2 * PI_FX), fx_sin(x));
    assert!(close(fx_sin(-x), -fx_sin(x), 2));
}

#[test]
fn atan2_axes() {
    assert_eq!(fx_atan2(0, FX_ONE), 0);
    assert_eq!(fx_atan2(FX_ONE, 0), HALF_PI_FX);
    assert_eq!(fx_atan2(0, -FX_ONE), PI_FX);
    assert_eq!(fx_atan2(-FX_ONE, 0), -HALF_PI_FX);
    assert_eq!(fx_atan2(0, 0), 0);
    assert!(close(fx_atan2(FX_ONE, FX_ONE), QUARTER_PI_FX, 120));
}

#[test]
fn magnitude_of_pythagorean_triple_is_exact() {
    assert_eq!(fx_mag2(3 * FX_ONE, 4 * FX_ONE), 5 * FX_ONE);
    assert_eq!(fx_mag3(FX_ONE * 2, FX_ONE * 3, FX_ONE * 6), 7 * FX_ONE);
    assert_eq!(fx_mag2(-3 * FX_ONE, 4 * FX_ONE), 5 * FX_ONE);
}

#[test]
fn identity_is_neutral_for_composition() {
    let t = translation(&vec3(FX_ONE, 2 * FX_ONE, -FX_ONE));
    let i = identity();
    assert_eq!(mat_mul(&i, &t), t);
    assert_eq!(mat_mul(&t, &i), t);
}

#[test]
fn translations_compose_by_adding_offsets() {
    let a = translation(&vec3(FX_ONE, 0, 0));
    let b = translation(&vec3(0, FX_ONE, 0));
    let ab = mat_mul(&a, &b);
    assert_eq!(ab.r0.w, FX_ONE);
    assert_eq!(ab.r1.w, FX_ONE);
    assert_eq!(ab.r2.w, 0);
}

#[test]
fn quarter_turn_about_z_moves_x_to_y() {
    let r = rot_z(HALF_PI_FX);
    let p = homog(&vec3(FX_ONE, 0, 0));
    let q = xyz(&mat_vec4(&r, &p));
    assert!((q.x).abs() <= 80);
    assert!((q.y - FX_ONE).abs() <= 80);
    assert_eq!(q.z, 0);
}

#[test]
fn vectors_compare_by_value() {
    let v = Vec3 { x: 1, y: 2, z: 3 };
    assert_eq!(v, vec3(1, 2, 3));
}
