//! Transform utilities and the heading animation model.
//!
//! Rotations compose elemental axis rotations in the documented order:
//! `rotate_all` applies X first, then Y, then Z (the matrix product
//! Z·Y·X), and `rotate_all_intrinsic` the reverse. `rotate_around` and
//! `scale_around` conjugate by translations to and from a pivot point, and
//! the pivot point itself is proved fixed under the resulting transform.

use vstd::prelude::*;
use crate::fixed::{
    clip, fx_add, fx_clamp, fx_div, fx_mul, fx_neg, fx_ok, fx_sub, lemma_tdiv_mul_cancel,
    lemma_tdiv_neg, lemma_tdiv_prod_bound, lemma_tdiv_zero, rem_trunc, spec_fx_add, spec_fx_clamp,
    spec_fx_div, spec_fx_mul, spec_fx_sub, tdiv, trem, FX_MAX, FX_ONE,
};
use crate::mat::{
    homog, lemma_mat_mul_identity_left, lemma_mat_mul_identity_right, lemma_translation_compose,
    mat_mul, mat_vec4, scaling, spec_homog, spec_identity, spec_mat_mul, spec_mat_vec4,
    spec_rot_x, spec_rot_y, spec_rot_z, spec_scaling, spec_translation, spec_vec3_add,
    spec_vec3_neg, rot_x, rot_y, rot_z, translation, vec3_add, vec3_neg, wf_mat4, wf_vec3,
    wf_vec4, Mat4, Vec3, Vec4,
};
use crate::trig::{
    fx_atan2, fx_cos, fx_mag2, fx_mag3, fx_sin, lemma_trig_range, lemma_trig_zero, spec_fx_atan2,
    spec_fx_cos, spec_fx_sin, spec_isqrt, PI_FX, TWO_PI_FX,
};

verus! {

/// Largest magnitude allowed for positions and pivot points: the world
/// coordinate bound (1024 units). Keeping positions inside it keeps every
/// intermediate of a conjugated transform exact (no saturation).
pub const FX_WORLD: i64 = 0x400_0000;

pub open spec fn world_vec3(v: Vec3) -> bool {
    -(FX_WORLD as int) <= v.x <= FX_WORLD as int && -(FX_WORLD as int) <= v.y <= FX_WORLD as int
        && -(FX_WORLD as int) <= v.z <= FX_WORLD as int
}

pub open spec fn spec_rotate_all(angles: Vec3) -> Mat4 {
    spec_mat_mul(
        spec_mat_mul(spec_rot_z(angles.z as int), spec_rot_y(angles.y as int)),
        spec_rot_x(angles.x as int),
    )
}

/// Composite rotation applying the X rotation first, then Y, then Z.
pub fn rotate_all(angles: &Vec3) -> (r: Mat4)
    requires
        wf_vec3(*angles),
    ensures
        r == spec_rotate_all(*angles),
        wf_mat4(r),
{
    let z_rotation: Mat4 = rot_z(angles.z);
    let y_rotation: Mat4 = rot_y(angles.y);
    let x_rotation: Mat4 = rot_x(angles.x);
    mat_mul(&mat_mul(&z_rotation, &y_rotation), &x_rotation)
}

pub open spec fn spec_rotate_all_intrinsic(angles: Vec3) -> Mat4 {
    spec_mat_mul(
        spec_mat_mul(spec_rot_x(angles.x as int), spec_rot_y(angles.y as int)),
        spec_rot_z(angles.z as int),
    )
}

/// Composite rotation applying the Z rotation first, then Y, then X.
pub fn rotate_all_intrinsic(angles: &Vec3) -> (r: Mat4)
    requires
        wf_vec3(*angles),
    ensures
        r == spec_rotate_all_intrinsic(*angles),
        wf_mat4(r),
{
    let z_rotation: Mat4 = rot_z(angles.z);
    let y_rotation: Mat4 = rot_y(angles.y);
    let x_rotation: Mat4 = rot_x(angles.x);
    mat_mul(&mat_mul(&x_rotation, &y_rotation), &z_rotation)
}

pub open spec fn spec_rotate_around(angles: Vec3, point: Vec3) -> Mat4 {
    spec_mat_mul(
        spec_mat_mul(spec_translation(point), spec_rotate_all(angles)),
        spec_translation(spec_vec3_neg(point)),
    )
}

/// Rotation conjugated about a pivot point.
pub fn rotate_around(angles: &Vec3, point: &Vec3) -> (r: Mat4)
    requires
        wf_vec3(*angles),
        wf_vec3(*point),
    ensures
        r == spec_rotate_around(*angles, *point),
        wf_mat4(r),
{
    let neg: Vec3 = vec3_neg(point);
    mat_mul(&mat_mul(&translation(point), &rotate_all(angles)), &translation(&neg))
}

pub open spec fn spec_rotate_around_intrinsic(angles: Vec3, point: Vec3) -> Mat4 {
    spec_mat_mul(
        spec_mat_mul(spec_translation(point), spec_rotate_all_intrinsic(angles)),
        spec_translation(spec_vec3_neg(point)),
    )
}

/// Intrinsic-order rotation conjugated about a pivot point.
pub fn rotate_around_intrinsic(angles: &Vec3, point: &Vec3) -> (r: Mat4)
    requires
        wf_vec3(*angles),
        wf_vec3(*point),
    ensures
        r == spec_rotate_around_intrinsic(*angles, *point),
        wf_mat4(r),
{
    let neg: Vec3 = vec3_neg(point);
    mat_mul(&mat_mul(&translation(point), &rotate_all_intrinsic(angles)), &translation(&neg))
}

pub open spec fn spec_scale_around(factors: Vec3, point: Vec3) -> Mat4 {
    spec_mat_mul(
        spec_mat_mul(spec_translation(point), spec_scaling(factors)),
        spec_translation(spec_vec3_neg(point)),
    )
}

/// Scaling conjugated about a pivot point.
pub fn scale_around(factors: &Vec3, point: &Vec3) -> (r: Mat4)
    requires
        wf_vec3(*factors),
        wf_vec3(*point),
    ensures
        r == spec_scale_around(*factors, *point),
        wf_mat4(r),
{
    let neg: Vec3 = vec3_neg(point);
    mat_mul(&mat_mul(&translation(point), &scaling(factors)), &translation(&neg))
}

/// The homogeneous point for a position vector.
pub fn to_homogeneous(vec: &Vec3) -> (r: Vec4)
    requires
        wf_vec3(*vec),
    ensures
        r == spec_homog(*vec),
        wf_vec4(r),
{
    homog(vec)
}

/// A rotation-like matrix: zero in the fourth column above a `(0,0,0,1)`
/// fourth row.
pub open spec fn rot_shape(m: Mat4) -> bool {
    m.r0.w == 0 && m.r1.w == 0 && m.r2.w == 0 && m.r3.x == 0 && m.r3.y == 0 && m.r3.z == 0
        && m.r3.w == FX_ONE
}

/// Every entry of the linear (upper-left) block is bounded by `k`.
pub open spec fn lin_bound(m: Mat4, k: int) -> bool {
    -k <= m.r0.x <= k && -k <= m.r0.y <= k && -k <= m.r0.z <= k && -k <= m.r1.x <= k && -k
        <= m.r1.y <= k && -k <= m.r1.z <= k && -k <= m.r2.x <= k && -k <= m.r2.y <= k && -k
        <= m.r2.z <= k
}

/// The elemental rotations have the rotation shape with entries bounded by
/// one.
pub proof fn lemma_elem_rot_shape(a: int)
    ensures
        rot_shape(spec_rot_x(a)) && lin_bound(spec_rot_x(a), FX_ONE as int),
        rot_shape(spec_rot_y(a)) && lin_bound(spec_rot_y(a), FX_ONE as int),
        rot_shape(spec_rot_z(a)) && lin_bound(spec_rot_z(a), FX_ONE as int),
{
    lemma_trig_range(a);
}

/// Multiplying a rotation-shaped matrix by an elemental-bounded one keeps
/// the shape and at most triples the entry bound, with no saturation.
pub proof fn lemma_rot_mul_shape(a: Mat4, b: Mat4, ka: int)
    requires
        rot_shape(a),
        rot_shape(b),
        lin_bound(a, ka),
        lin_bound(b, FX_ONE as int),
        0 <= ka,
        3 * ka <= FX_MAX as int,
    ensures
        rot_shape(spec_mat_mul(a, b)),
        lin_bound(spec_mat_mul(a, b), 3 * ka),
{
    lemma_tdiv_zero(FX_ONE as int);
    lemma_tdiv_mul_cancel(FX_ONE as int, FX_ONE as int);
    lemma_tdiv_prod_bound(a.r0.x as int, b.r0.x as int, ka, FX_ONE as int);
    lemma_tdiv_prod_bound(a.r0.y as int, b.r1.x as int, ka, FX_ONE as int);
    lemma_tdiv_prod_bound(a.r0.z as int, b.r2.x as int, ka, FX_ONE as int);
    lemma_tdiv_prod_bound(a.r0.x as int, b.r0.y as int, ka, FX_ONE as int);
    lemma_tdiv_prod_bound(a.r0.y as int, b.r1.y as int, ka, FX_ONE as int);
    lemma_tdiv_prod_bound(a.r0.z as int, b.r2.y as int, ka, FX_ONE as int);
    lemma_tdiv_prod_bound(a.r0.x as int, b.r0.z as int, ka, FX_ONE as int);
    lemma_tdiv_prod_bound(a.r0.y as int, b.r1.z as int, ka, FX_ONE as int);
    lemma_tdiv_prod_bound(a.r0.z as int, b.r2.z as int, ka, FX_ONE as int);
    lemma_tdiv_prod_bound(a.r1.x as int, b.r0.x as int, ka, FX_ONE as int);
    lemma_tdiv_prod_bound(a.r1.y as int, b.r1.x as int, ka, FX_ONE as int);
    lemma_tdiv_prod_bound(a.r1.z as int, b.r2.x as int, ka, FX_ONE as int);
    lemma_tdiv_prod_bound(a.r1.x as int, b.r0.y as int, ka, FX_ONE as int);
    lemma_tdiv_prod_bound(a.r1.y as int, b.r1.y as int, ka, FX_ONE as int);
    lemma_tdiv_prod_bound(a.r1.z as int, b.r2.y as int, ka, FX_ONE as int);
    lemma_tdiv_prod_bound(a.r1.x as int, b.r0.z as int, ka, FX_ONE as int);
    lemma_tdiv_prod_bound(a.r1.y as int, b.r1.z as int, ka, FX_ONE as int);
    lemma_tdiv_prod_bound(a.r1.z as int, b.r2.z as int, ka, FX_ONE as int);
    lemma_tdiv_prod_bound(a.r2.x as int, b.r0.x as int, ka, FX_ONE as int);
    lemma_tdiv_prod_bound(a.r2.y as int, b.r1.x as int, ka, FX_ONE as int);
    lemma_tdiv_prod_bound(a.r2.z as int, b.r2.x as int, ka, FX_ONE as int);
    lemma_tdiv_prod_bound(a.r2.x as int, b.r0.y as int, ka, FX_ONE as int);
    lemma_tdiv_prod_bound(a.r2.y as int, b.r1.y as int, ka, FX_ONE as int);
    lemma_tdiv_prod_bound(a.r2.z as int, b.r2.y as int, ka, FX_ONE as int);
    lemma_tdiv_prod_bound(a.r2.x as int, b.r0.z as int, ka, FX_ONE as int);
    lemma_tdiv_prod_bound(a.r2.y as int, b.r1.z as int, ka, FX_ONE as int);
    lemma_tdiv_prod_bound(a.r2.z as int, b.r2.z as int, ka, FX_ONE as int);
    assert(tdiv(ka * FX_ONE, FX_ONE as int) == ka) by {
        lemma_tdiv_mul_cancel(ka, FX_ONE as int);
    }
}

/// A composite of the three elemental rotations has the rotation shape and
/// linear entries bounded by nine.
pub proof fn lemma_rotate_all_shape(angles: Vec3)
    ensures
        rot_shape(spec_rotate_all(angles)),
        lin_bound(spec_rotate_all(angles), 9 * FX_ONE as int),
{
    lemma_elem_rot_shape(angles.x as int);
    lemma_elem_rot_shape(angles.y as int);
    lemma_elem_rot_shape(angles.z as int);
    let zy = spec_mat_mul(spec_rot_z(angles.z as int), spec_rot_y(angles.y as int));
    lemma_rot_mul_shape(spec_rot_z(angles.z as int), spec_rot_y(angles.y as int), FX_ONE as int);
    lemma_rot_mul_shape(zy, spec_rot_x(angles.x as int), 3 * FX_ONE as int);
}

/// Pivot invariance: rotating about a pivot leaves the pivot point exactly
/// fixed. Holds for every well-formed set of angles and every pivot inside
/// the world coordinate bound.
pub proof fn lemma_pivot_invariance(angles: Vec3, pivot: Vec3)
    requires
        wf_vec3(angles),
        wf_vec3(pivot),
        world_vec3(pivot),
    ensures
        spec_mat_vec4(spec_rotate_around(angles, pivot), spec_homog(pivot)) == spec_homog(pivot),
{
    let one = FX_ONE as int;
    let rr = spec_rotate_all(angles);
    lemma_rotate_all_shape(angles);
    lemma_tdiv_zero(one);
    lemma_tdiv_mul_cancel(FX_ONE as int, one);

    // The left factor T(pivot) * R keeps R's linear block, places the pivot
    // in the fourth column, and keeps the affine fourth row.
    let a = spec_mat_mul(spec_translation(pivot), rr);
    lemma_tdiv_mul_cancel(rr.r0.x as int, one);
    lemma_tdiv_mul_cancel(rr.r0.y as int, one);
    lemma_tdiv_mul_cancel(rr.r0.z as int, one);
    lemma_tdiv_mul_cancel(rr.r1.x as int, one);
    lemma_tdiv_mul_cancel(rr.r1.y as int, one);
    lemma_tdiv_mul_cancel(rr.r1.z as int, one);
    lemma_tdiv_mul_cancel(rr.r2.x as int, one);
    lemma_tdiv_mul_cancel(rr.r2.y as int, one);
    lemma_tdiv_mul_cancel(rr.r2.z as int, one);
    lemma_tdiv_mul_cancel(pivot.x as int, one);
    lemma_tdiv_mul_cancel(pivot.y as int, one);
    lemma_tdiv_mul_cancel(pivot.z as int, one);
    assert(FX_ONE as int * rr.r0.x == rr.r0.x * FX_ONE) by (nonlinear_arith);
    assert(FX_ONE as int * rr.r0.y == rr.r0.y * FX_ONE) by (nonlinear_arith);
    assert(FX_ONE as int * rr.r0.z == rr.r0.z * FX_ONE) by (nonlinear_arith);
    assert(FX_ONE as int * rr.r1.x == rr.r1.x * FX_ONE) by (nonlinear_arith);
    assert(FX_ONE as int * rr.r1.y == rr.r1.y * FX_ONE) by (nonlinear_arith);
    assert(FX_ONE as int * rr.r1.z == rr.r1.z * FX_ONE) by (nonlinear_arith);
    assert(FX_ONE as int * rr.r2.x == rr.r2.x * FX_ONE) by (nonlinear_arith);
    assert(FX_ONE as int * rr.r2.y == rr.r2.y * FX_ONE) by (nonlinear_arith);
    assert(FX_ONE as int * rr.r2.z == rr.r2.z * FX_ONE) by (nonlinear_arith);
    assert(a.r0.x == rr.r0.x && a.r0.y == rr.r0.y && a.r0.z == rr.r0.z && a.r0.w == pivot.x);
    assert(a.r1.x == rr.r1.x && a.r1.y == rr.r1.y && a.r1.z == rr.r1.z && a.r1.w == pivot.y);
    assert(a.r2.x == rr.r2.x && a.r2.y == rr.r2.y && a.r2.z == rr.r2.z && a.r2.w == pivot.z);
    assert(a.r3.x == 0 && a.r3.y == 0 && a.r3.z == 0 && a.r3.w == FX_ONE);

    // The right factor T(-pivot) keeps the linear block again and folds the
    // rotated pivot into the fourth column.
    let m = spec_mat_mul(a, spec_translation(spec_vec3_neg(pivot)));
    let w = FX_WORLD as int;
    let kb = 9 * one;
    let t00 = tdiv(rr.r0.x * pivot.x, one);
    let t01 = tdiv(rr.r0.y * pivot.y, one);
    let t02 = tdiv(rr.r0.z * pivot.z, one);
    let t10 = tdiv(rr.r1.x * pivot.x, one);
    let t11 = tdiv(rr.r1.y * pivot.y, one);
    let t12 = tdiv(rr.r1.z * pivot.z, one);
    let t20 = tdiv(rr.r2.x * pivot.x, one);
    let t21 = tdiv(rr.r2.y * pivot.y, one);
    let t22 = tdiv(rr.r2.z * pivot.z, one);
    lemma_tdiv_prod_bound(rr.r0.x as int, pivot.x as int, kb, w);
    lemma_tdiv_prod_bound(rr.r0.y as int, pivot.y as int, kb, w);
    lemma_tdiv_prod_bound(rr.r0.z as int, pivot.z as int, kb, w);
    lemma_tdiv_prod_bound(rr.r1.x as int, pivot.x as int, kb, w);
    lemma_tdiv_prod_bound(rr.r1.y as int, pivot.y as int, kb, w);
    lemma_tdiv_prod_bound(rr.r1.z as int, pivot.z as int, kb, w);
    lemma_tdiv_prod_bound(rr.r2.x as int, pivot.x as int, kb, w);
    lemma_tdiv_prod_bound(rr.r2.y as int, pivot.y as int, kb, w);
    lemma_tdiv_prod_bound(rr.r2.z as int, pivot.z as int, kb, w);
    assert(tdiv(kb * w, one) == 9 * w) by {
        lemma_tdiv_mul_cancel(9 * w, one);
        assert(kb * w == (9 * w) * FX_ONE) by (nonlinear_arith)
            requires
                kb == 9 * (FX_ONE as int) && one == FX_ONE,
        ;
    }
    // Negated products flip the sign of each term exactly.
    assert(rr.r0.x * (-pivot.x as i64) == -(rr.r0.x * pivot.x)) by (nonlinear_arith)
        requires
            (-pivot.x as i64) == -(pivot.x as int),
    ;
    assert(rr.r0.y * (-pivot.y as i64) == -(rr.r0.y * pivot.y)) by (nonlinear_arith)
        requires
            (-pivot.y as i64) == -(pivot.y as int),
    ;
    assert(rr.r0.z * (-pivot.z as i64) == -(rr.r0.z * pivot.z)) by (nonlinear_arith)
        requires
            (-pivot.z as i64) == -(pivot.z as int),
    ;
    assert(rr.r1.x * (-pivot.x as i64) == -(rr.r1.x * pivot.x)) by (nonlinear_arith)
        requires
            (-pivot.x as i64) == -(pivot.x as int),
    ;
    assert(rr.r1.y * (-pivot.y as i64) == -(rr.r1.y * pivot.y)) by (nonlinear_arith)
        requires
            (-pivot.y as i64) == -(pivot.y as int),
    ;
    assert(rr.r1.z * (-pivot.z as i64) == -(rr.r1.z * pivot.z)) by (nonlinear_arith)
        requires
            (-pivot.z as i64) == -(pivot.z as int),
    ;
    assert(rr.r2.x * (-pivot.x as i64) == -(rr.r2.x * pivot.x)) by (nonlinear_arith)
        requires
            (-pivot.x as i64) == -(pivot.x as int),
    ;
    assert(rr.r2.y * (-pivot.y as i64) == -(rr.r2.y * pivot.y)) by (nonlinear_arith)
        requires
            (-pivot.y as i64) == -(pivot.y as int),
    ;
    assert(rr.r2.z * (-pivot.z as i64) == -(rr.r2.z * pivot.z)) by (nonlinear_arith)
        requires
            (-pivot.z as i64) == -(pivot.z as int),
    ;
    lemma_tdiv_neg(rr.r0.x * pivot.x, one);
    lemma_tdiv_neg(rr.r0.y * pivot.y, one);
    lemma_tdiv_neg(rr.r0.z * pivot.z, one);
    lemma_tdiv_neg(rr.r1.x * pivot.x, one);
    lemma_tdiv_neg(rr.r1.y * pivot.y, one);
    lemma_tdiv_neg(rr.r1.z * pivot.z, one);
    lemma_tdiv_neg(rr.r2.x * pivot.x, one);
    lemma_tdiv_neg(rr.r2.y * pivot.y, one);
    lemma_tdiv_neg(rr.r2.z * pivot.z, one);
    assert(m.r0.x == rr.r0.x && m.r0.y == rr.r0.y && m.r0.z == rr.r0.z);
    assert(m.r1.x == rr.r1.x && m.r1.y == rr.r1.y && m.r1.z == rr.r1.z);
    assert(m.r2.x == rr.r2.x && m.r2.y == rr.r2.y && m.r2.z == rr.r2.z);
    assert(m.r0.w == clip(-t00 + -t01 + -t02 + pivot.x));
    assert(m.r1.w == clip(-t10 + -t11 + -t12 + pivot.y));
    assert(m.r2.w == clip(-t20 + -t21 + -t22 + pivot.z));
    assert(m.r0.w == -t00 - t01 - t02 + pivot.x);
    assert(m.r1.w == -t10 - t11 - t12 + pivot.y);
    assert(m.r2.w == -t20 - t21 - t22 + pivot.z);
    assert(m.r3.x == 0 && m.r3.y == 0 && m.r3.z == 0 && m.r3.w == FX_ONE);

    // Applying the composite to the homogeneous pivot cancels the rotated
    // pivot terms exactly, because truncating division is odd.
    let hp = spec_homog(pivot);
    lemma_tdiv_mul_cancel(m.r0.w as int, one);
    lemma_tdiv_mul_cancel(m.r1.w as int, one);
    lemma_tdiv_mul_cancel(m.r2.w as int, one);
    let res = spec_mat_vec4(m, hp);
    assert(res.x == clip(t00 + t01 + t02 + (-t00 - t01 - t02 + pivot.x)));
    assert(res.y == clip(t10 + t11 + t12 + (-t10 - t11 - t12 + pivot.y)));
    assert(res.z == clip(t20 + t21 + t22 + (-t20 - t21 - t22 + pivot.z)));
    assert(res.w == clip(0 + 0 + 0 + FX_ONE));
    assert(res == hp);
}

/// Rotations by zero angles compose to the exact identity, so a node
/// that is not rotated is not moved by its rotation step.
pub proof fn lemma_rotate_all_zero()
    ensures
        spec_rotate_all(Vec3 { x: 0, y: 0, z: 0 }) == spec_identity(),
{
    lemma_trig_zero();
    assert(spec_rot_x(0) == spec_identity());
    assert(spec_rot_y(0) == spec_identity());
    assert(spec_rot_z(0) == spec_identity());
    assert(wf_mat4(spec_identity()));
    lemma_mat_mul_identity_left(spec_identity());
}

/// Rotating by zero angles about any pivot is exactly the identity.
#[verifier::rlimit(100)]
pub proof fn lemma_rotate_around_zero(p: Vec3)
    requires
        wf_vec3(p),
    ensures
        spec_rotate_around(Vec3 { x: 0, y: 0, z: 0 }, p) == spec_identity(),
{
    lemma_rotate_all_zero();
    assert(wf_mat4(spec_translation(p)));
    lemma_mat_mul_identity_right(spec_translation(p));
    assert(wf_vec3(spec_vec3_neg(p)));
    lemma_translation_compose(p, spec_vec3_neg(p));
    assert(spec_vec3_add(p, spec_vec3_neg(p)) == (Vec3 { x: 0, y: 0, z: 0 }));
    assert(spec_translation(Vec3 { x: 0, y: 0, z: 0 }) == spec_identity());
}

/// Scaling by one about any pivot is exactly the identity.
#[verifier::rlimit(100)]
pub proof fn lemma_scale_around_unit(p: Vec3)
    requires
        wf_vec3(p),
    ensures
        spec_scale_around(Vec3 { x: FX_ONE, y: FX_ONE, z: FX_ONE }, p) == spec_identity(),
{
    assert(spec_scaling(Vec3 { x: FX_ONE, y: FX_ONE, z: FX_ONE }) == spec_identity());
    assert(wf_mat4(spec_translation(p)));
    lemma_mat_mul_identity_right(spec_translation(p));
    assert(wf_vec3(spec_vec3_neg(p)));
    lemma_translation_compose(p, spec_vec3_neg(p));
    assert(spec_vec3_add(p, spec_vec3_neg(p)) == (Vec3 { x: 0, y: 0, z: 0 }));
    assert(spec_translation(Vec3 { x: 0, y: 0, z: 0 }) == spec_identity());
}

/// Base rotor angular rate: one full turn.
pub const BASE_ROTATION: i64 = 411774;

/// Rotor rate gain: two full turns.
pub const ROTATION_RATE: i64 = BASE_ROTATION * 2;

/// One half, in fixed point.
pub const HALF_FX: i64 = 32768;

/// Finite-difference step for the idle path derivative (0.05).
pub const STEP_FX: i64 = 3277;

/// Radius parameter of the idle racetrack path (50 units).
pub const PATH_SIZE_FX: i64 = 3276800;

/// Three times the path radius (the Z extent of the racetrack).
pub const TRIPLE_PATH_FX: i64 = PATH_SIZE_FX * 3;

/// Nose-down pitch per unit of idle-path speed (0.175).
pub const PITCH_RATE_FX: i64 = 11469;

/// Constant altitude of the idle path (10 units).
pub const ALTITUDE_FX: i64 = 655360;

/// Damping rate at which the piloted yaw eases toward the camera yaw
/// (0.05 per frame).
pub const YAW_EASE_FX: i64 = 3277;

/// Four, in fixed point.
pub const FOUR_FX: i64 = 262144;

/// A computed pose for one animated frame: position, attitude and rotor
/// rates, all fixed-point.
#[derive(Clone, Copy, Debug, PartialEq, Eq, Structural)]
pub struct Heading {
    pub x: i64,
    pub y: i64,
    pub z: i64,
    pub roll: i64,
    pub pitch: i64,
    pub yaw: i64,
    pub top_rotor: i64,
    pub rear_rotor: i64,
}

pub open spec fn wf_heading(h: Heading) -> bool {
    fx_ok(h.x) && fx_ok(h.y) && fx_ok(h.z) && fx_ok(h.roll) && fx_ok(h.pitch) && fx_ok(h.yaw)
        && fx_ok(h.top_rotor) && fx_ok(h.rear_rotor)
}

/// The signed error between a heading and a camera heading measured in the
/// opposite winding: `a - (2*pi - b)`, wrapped twice toward `(-pi, pi]`.
pub open spec fn spec_angular_error(a: int, b: int) -> int {
    let diff = a - (TWO_PI_FX - b);
    let e1 = if diff > PI_FX as int {
        diff - TWO_PI_FX
    } else if diff < -(PI_FX as int) {
        diff + TWO_PI_FX
    } else {
        diff
    };
    if e1 > PI_FX as int {
        e1 - TWO_PI_FX
    } else if e1 < -(PI_FX as int) {
        e1 + TWO_PI_FX
    } else {
        e1
    }
}

/// Shortest signed angular error between a heading and a camera heading.
/// The result always lands in `[-PI_FX, PI_FX]`.
pub fn get_angular_error(angle1: i64, angle2: i64) -> (r: i64)
    requires
        -TWO_PI_FX <= angle1 <= TWO_PI_FX,
        0 <= angle2 <= TWO_PI_FX,
    ensures
        r == spec_angular_error(angle1 as int, angle2 as int),
        -PI_FX <= r <= PI_FX,
{
    let diff: i64 = angle1 - (TWO_PI_FX - angle2);
    let e1: i64 = if diff > PI_FX {
        diff - TWO_PI_FX
    } else if diff < -PI_FX {
        diff + TWO_PI_FX
    } else {
        diff
    };
    if e1 > PI_FX {
        e1 - TWO_PI_FX
    } else if e1 < -PI_FX {
        e1 + TWO_PI_FX
    } else {
        e1
    }
}

/// The angular error is symmetric in its two arguments: swapping heading
/// and camera heading gives the same error, since both enter through their
/// sum.
pub proof fn lemma_angular_error_symmetric(a: int, b: int)
    ensures
        spec_angular_error(a, b) == spec_angular_error(b, a),
{
}

/// A camera heading that mirrors the vehicle heading across the full turn
/// gives zero error: the two agree once the camera winding is reversed.
pub proof fn lemma_angular_error_aligned(a: int)
    ensures
        spec_angular_error(a, TWO_PI_FX - a) == 0,
{
}

/// The wrapped error stays in `[-PI_FX, PI_FX]` for every wrapped heading
/// pair.
pub proof fn lemma_angular_error_range(a: int, b: int)
    requires
        -(TWO_PI_FX as int) <= a <= TWO_PI_FX as int,
        0 <= b <= TWO_PI_FX as int,
    ensures
        -(PI_FX as int) <= spec_angular_error(a, b) <= PI_FX as int,
{
}

pub open spec fn spec_simple_heading(time: int) -> Heading {
    let xpos = spec_fx_mul(PATH_SIZE_FX as int, spec_fx_sin(time));
    let xnext = spec_fx_mul(PATH_SIZE_FX as int, spec_fx_sin(spec_fx_add(time, STEP_FX as int)));
    let zarg = spec_fx_mul(time, HALF_FX as int);
    let zargn = spec_fx_mul(spec_fx_add(time, STEP_FX as int), HALF_FX as int);
    let zpos = spec_fx_mul(TRIPLE_PATH_FX as int, spec_fx_cos(zarg));
    let znext = spec_fx_mul(TRIPLE_PATH_FX as int, spec_fx_cos(zargn));
    let dx = spec_fx_sub(xnext, xpos);
    let dz = spec_fx_sub(znext, zpos);
    let roll = spec_fx_mul(spec_fx_cos(zarg), HALF_FX as int);
    let mag = clip(spec_isqrt(dx * dx + dz * dz));
    let pitch = -spec_fx_mul(PITCH_RATE_FX as int, mag);
    let yaw = PI_FX + spec_fx_atan2(dx, dz);
    Heading {
        x: xpos as i64,
        y: ALTITUDE_FX,
        z: zpos as i64,
        roll: roll as i64,
        pitch: pitch as i64,
        yaw: yaw as i64,
        top_rotor: 0,
        rear_rotor: 0,
    }
}

/// The idle flight path: a closed racetrack at constant altitude, with the
/// attitude derived from a finite-difference estimate of the velocity. A
/// pure function of the elapsed time: equal times give equal headings.
pub fn simple_heading_animation(time: i64) -> (r: Heading)
    requires
        fx_ok(time),
    ensures
        r == spec_simple_heading(time as int),
        wf_heading(r),
        r.y == ALTITUDE_FX,
        0 <= r.yaw <= TWO_PI_FX,
{
    let tnext: i64 = fx_add(time, STEP_FX);
    let xpos: i64 = fx_mul(PATH_SIZE_FX, fx_sin(time));
    let xnext: i64 = fx_mul(PATH_SIZE_FX, fx_sin(tnext));
    let zarg: i64 = fx_mul(time, HALF_FX);
    let zargn: i64 = fx_mul(tnext, HALF_FX);
    let zpos: i64 = fx_mul(TRIPLE_PATH_FX, fx_cos(zarg));
    let znext: i64 = fx_mul(TRIPLE_PATH_FX, fx_cos(zargn));
    let dx: i64 = fx_sub(xnext, xpos);
    let dz: i64 = fx_sub(znext, zpos);
    let roll: i64 = fx_mul(fx_cos(zarg), HALF_FX);
    let mag: i64 = fx_mag2(dx, dz);
    let pitch: i64 = fx_neg(fx_mul(PITCH_RATE_FX, mag));
    let yaw: i64 = PI_FX + fx_atan2(dx, dz);
    Heading {
        x: xpos,
        y: ALTITUDE_FX,
        z: zpos,
        roll,
        pitch,
        yaw,
        top_rotor: 0,
        rear_rotor: 0,
    }
}

/// The idle heading depends on the elapsed time alone: equal times give
/// bit-identical headings, however often the animation is sampled.
pub proof fn lemma_idle_path_deterministic(t1: i64, t2: i64)
    requires
        t1 == t2,
    ensures
        spec_simple_heading(t1 as int) == spec_simple_heading(t2 as int),
{
}

pub open spec fn spec_movement_animation(speed: Vec3, pos: Vec3, rot: Vec3, cam: Vec3) -> Heading {
    let np = spec_vec3_add(pos, speed);
    let c = spec_fx_cos(rot.y as int);
    let s = spec_fx_sin(rot.y as int);
    let relx = spec_fx_add(spec_fx_mul(c, speed.x as int), spec_fx_mul(s, speed.z as int));
    let rely = spec_fx_add(spec_fx_mul(-s, speed.x as int), spec_fx_mul(c, speed.z as int));
    let max_angle = crate::controls::MAX_ANGLE as int;
    let roll = -spec_fx_clamp(
        spec_fx_mul(spec_fx_div(relx, crate::controls::MAX_SPEED as int), max_angle),
        -max_angle,
        max_angle,
    );
    let pitch = spec_fx_clamp(
        spec_fx_mul(spec_fx_div(rely, crate::controls::MAX_SPEED as int), max_angle),
        -max_angle,
        max_angle,
    );
    let err = spec_angular_error(rot.y as int, cam.y as int);
    let yaw = trem(rot.y - spec_fx_mul(YAW_EASE_FX as int, err), TWO_PI_FX as int);
    let mag = clip(spec_isqrt(speed.x * speed.x + speed.y * speed.y + speed.z * speed.z));
    let top = spec_fx_add(
        BASE_ROTATION as int,
        spec_fx_mul(spec_fx_mul(mag, ROTATION_RATE as int), HALF_FX as int),
    );
    let rear = spec_fx_add(
        BASE_ROTATION as int,
        spec_fx_mul(spec_fx_mul(yaw - rot.y, ROTATION_RATE as int), FOUR_FX as int),
    );
    Heading {
        x: np.x,
        y: np.y,
        z: np.z,
        roll: roll as i64,
        pitch: pitch as i64,
        yaw: yaw as i64,
        top_rotor: top as i64,
        rear_rotor: rear as i64,
    }
}

/// The piloted pose: the position advanced by the velocity, bank and pitch
/// proportional to the velocity expressed in the vehicle's own heading
/// frame (capped at `MAX_ANGLE`), the yaw eased toward the camera yaw, and
/// rotor rates driven by speed and by the yaw correction.
pub fn movement_animation(
    speed: &Vec3,
    heli_position: &Vec3,
    heli_rotation: &Vec3,
    camera_rotation: &Vec3,
) -> (r: Heading)
    requires
        wf_vec3(*speed),
        wf_vec3(*heli_position),
        wf_vec3(*heli_rotation),
        wf_vec3(*camera_rotation),
        -TWO_PI_FX <= heli_rotation.y <= TWO_PI_FX,
        0 <= camera_rotation.y <= TWO_PI_FX,
    ensures
        r == spec_movement_animation(*speed, *heli_position, *heli_rotation, *camera_rotation),
        wf_heading(r),
        -TWO_PI_FX < r.yaw < TWO_PI_FX,
        -crate::controls::MAX_ANGLE <= r.roll <= crate::controls::MAX_ANGLE,
        -crate::controls::MAX_ANGLE <= r.pitch <= crate::controls::MAX_ANGLE,
{
    let new_position: Vec3 = vec3_add(heli_position, speed);
    let theta: i64 = heli_rotation.y;
    let c: i64 = fx_cos(theta);
    let s: i64 = fx_sin(theta);
    let relx: i64 = fx_add(fx_mul(c, speed.x), fx_mul(s, speed.z));
    let rely: i64 = fx_add(fx_mul(fx_neg(s), speed.x), fx_mul(c, speed.z));
    let roll: i64 = fx_neg(
        fx_clamp(
            fx_mul(fx_div(relx, crate::controls::MAX_SPEED), crate::controls::MAX_ANGLE),
            -crate::controls::MAX_ANGLE,
            crate::controls::MAX_ANGLE,
        ),
    );
    let pitch: i64 = fx_clamp(
        fx_mul(fx_div(rely, crate::controls::MAX_SPEED), crate::controls::MAX_ANGLE),
        -crate::controls::MAX_ANGLE,
        crate::controls::MAX_ANGLE,
    );
    let error: i64 = get_angular_error(heli_rotation.y, camera_rotation.y);
    let eased: i64 = heli_rotation.y - fx_mul(YAW_EASE_FX, error);
    let yaw: i64 = rem_trunc(eased, TWO_PI_FX);
    proof {
        crate::fixed::lemma_trem_range(eased as int, TWO_PI_FX as int);
    }
    let mag: i64 = fx_mag3(speed.x, speed.y, speed.z);
    let top_rotor: i64 = fx_add(BASE_ROTATION, fx_mul(fx_mul(mag, ROTATION_RATE), HALF_FX));
    let rear_rotor: i64 = fx_add(
        BASE_ROTATION,
        fx_mul(fx_mul(yaw - theta, ROTATION_RATE), FOUR_FX),
    );
    Heading {
        x: new_position.x,
        y: new_position.y,
        z: new_position.z,
        roll,
        pitch,
        yaw,
        top_rotor,
        rear_rotor,
    }
}

} // verus!
