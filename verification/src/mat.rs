//! Fixed-point vectors and 4x4 affine transform matrices.
//!
//! A `Mat4` stores its rows; `mat_vec4` applies the matrix to a column
//! vector, and `mat_mul` composes two matrices, each entry saturating as
//! the scalar operations do. Homogeneous points carry `FX_ONE` in their
//! fourth component.

use vstd::prelude::*;
use crate::fixed::{
    clip, div_trunc, fx_add, fx_mul, fx_neg, fx_ok, fx_sub, lemma_tdiv_magnitude,
    lemma_tdiv_mul_cancel, lemma_tdiv_ordered, lemma_tdiv_zero, spec_fx_add, spec_fx_mul,
    spec_fx_sub, tdiv, FX_MAX, FX_ONE,
};
use crate::trig::{fx_cos, fx_sin, spec_fx_cos, spec_fx_sin};

verus! {

#[derive(Clone, Copy, Debug, PartialEq, Eq, Structural)]
pub struct Vec3 {
    pub x: i64,
    pub y: i64,
    pub z: i64,
}

#[derive(Clone, Copy, Debug, PartialEq, Eq, Structural)]
pub struct Vec4 {
    pub x: i64,
    pub y: i64,
    pub z: i64,
    pub w: i64,
}

/// A 4x4 matrix, stored by rows.
#[derive(Clone, Copy, Debug, PartialEq, Eq, Structural)]
pub struct Mat4 {
    pub r0: Vec4,
    pub r1: Vec4,
    pub r2: Vec4,
    pub r3: Vec4,
}

pub open spec fn wf_vec3(v: Vec3) -> bool {
    fx_ok(v.x) && fx_ok(v.y) && fx_ok(v.z)
}

pub open spec fn wf_vec4(v: Vec4) -> bool {
    fx_ok(v.x) && fx_ok(v.y) && fx_ok(v.z) && fx_ok(v.w)
}

pub open spec fn wf_mat4(m: Mat4) -> bool {
    wf_vec4(m.r0) && wf_vec4(m.r1) && wf_vec4(m.r2) && wf_vec4(m.r3)
}

pub fn vec3(x: i64, y: i64, z: i64) -> (r: Vec3)
    ensures
        r.x == x && r.y == y && r.z == z,
{
    Vec3 { x, y, z }
}

pub open spec fn spec_vec3_neg(v: Vec3) -> Vec3 {
    Vec3 { x: -v.x as i64, y: -v.y as i64, z: -v.z as i64 }
}

/// Componentwise negation; exact over well-formed vectors.
pub fn vec3_neg(v: &Vec3) -> (r: Vec3)
    requires
        wf_vec3(*v),
    ensures
        r == spec_vec3_neg(*v),
        wf_vec3(r),
{
    Vec3 { x: fx_neg(v.x), y: fx_neg(v.y), z: fx_neg(v.z) }
}

pub open spec fn spec_vec3_add(a: Vec3, b: Vec3) -> Vec3 {
    Vec3 {
        x: spec_fx_add(a.x as int, b.x as int) as i64,
        y: spec_fx_add(a.y as int, b.y as int) as i64,
        z: spec_fx_add(a.z as int, b.z as int) as i64,
    }
}

/// Componentwise saturating addition.
pub fn vec3_add(a: &Vec3, b: &Vec3) -> (r: Vec3)
    requires
        wf_vec3(*a),
        wf_vec3(*b),
    ensures
        r == spec_vec3_add(*a, *b),
        wf_vec3(r),
{
    Vec3 { x: fx_add(a.x, b.x), y: fx_add(a.y, b.y), z: fx_add(a.z, b.z) }
}

pub open spec fn spec_vec3_sub(a: Vec3, b: Vec3) -> Vec3 {
    Vec3 {
        x: spec_fx_sub(a.x as int, b.x as int) as i64,
        y: spec_fx_sub(a.y as int, b.y as int) as i64,
        z: spec_fx_sub(a.z as int, b.z as int) as i64,
    }
}

/// Componentwise saturating subtraction.
pub fn vec3_sub(a: &Vec3, b: &Vec3) -> (r: Vec3)
    requires
        wf_vec3(*a),
        wf_vec3(*b),
    ensures
        r == spec_vec3_sub(*a, *b),
        wf_vec3(r),
{
    Vec3 { x: fx_sub(a.x, b.x), y: fx_sub(a.y, b.y), z: fx_sub(a.z, b.z) }
}

pub open spec fn spec_vec3_scale(v: Vec3, k: int) -> Vec3 {
    Vec3 {
        x: spec_fx_mul(v.x as int, k) as i64,
        y: spec_fx_mul(v.y as int, k) as i64,
        z: spec_fx_mul(v.z as int, k) as i64,
    }
}

/// Scale each component by a scalar.
pub fn vec3_scale(v: &Vec3, k: i64) -> (r: Vec3)
    requires
        wf_vec3(*v),
        fx_ok(k),
    ensures
        r == spec_vec3_scale(*v, k as int),
        wf_vec3(r),
{
    Vec3 { x: fx_mul(v.x, k), y: fx_mul(v.y, k), z: fx_mul(v.z, k) }
}

/// A term of a dot product: one scaled multiplication without saturation.
/// Bounded well inside `i64`, so four terms always sum without overflow.
pub fn mul_term(a: i64, b: i64) -> (r: i64)
    requires
        fx_ok(a),
        fx_ok(b),
    ensures
        r == tdiv(a * b, FX_ONE as int),
        -0x4000_0000_0000 <= r <= 0x4000_0000_0000,
{
    proof {
        assert(-0x4000_0000_0000_0000 <= (a as int) * (b as int) <= 0x4000_0000_0000_0000)
            by (nonlinear_arith)
            requires
                -(FX_MAX as int) <= a <= FX_MAX as int,
                -(FX_MAX as int) <= b <= FX_MAX as int,
                FX_MAX == 0x8000_0000,
        ;
        lemma_tdiv_magnitude((a as int) * (b as int), FX_ONE as int);
        if a * b >= 0 {
            lemma_tdiv_ordered((a as int) * (b as int), 0x4000_0000_0000_0000, FX_ONE as int);
        } else {
            lemma_tdiv_ordered(-((a as int) * (b as int)), 0x4000_0000_0000_0000, FX_ONE as int);
            crate::fixed::lemma_tdiv_neg((a as int) * (b as int), FX_ONE as int);
        }
    }
    let p: i64 = a * b;
    div_trunc(p, FX_ONE)
}

/// The saturated dot product of two four-vectors of fixed-point scalars.
pub open spec fn spec_dot4(a: Vec4, b: Vec4) -> int {
    clip(
        tdiv(a.x * b.x, FX_ONE as int) + tdiv(a.y * b.y, FX_ONE as int) + tdiv(
            a.z * b.z,
            FX_ONE as int,
        ) + tdiv(a.w * b.w, FX_ONE as int),
    )
}

pub fn dot4(a: &Vec4, b: &Vec4) -> (r: i64)
    requires
        wf_vec4(*a),
        wf_vec4(*b),
    ensures
        r == spec_dot4(*a, *b),
        fx_ok(r),
{
    let t0: i64 = mul_term(a.x, b.x);
    let t1: i64 = mul_term(a.y, b.y);
    let t2: i64 = mul_term(a.z, b.z);
    let t3: i64 = mul_term(a.w, b.w);
    crate::fixed::clip_sat(t0 + t1 + t2 + t3)
}

pub open spec fn spec_col0(m: Mat4) -> Vec4 {
    Vec4 { x: m.r0.x, y: m.r1.x, z: m.r2.x, w: m.r3.x }
}

pub open spec fn spec_col1(m: Mat4) -> Vec4 {
    Vec4 { x: m.r0.y, y: m.r1.y, z: m.r2.y, w: m.r3.y }
}

pub open spec fn spec_col2(m: Mat4) -> Vec4 {
    Vec4 { x: m.r0.z, y: m.r1.z, z: m.r2.z, w: m.r3.z }
}

pub open spec fn spec_col3(m: Mat4) -> Vec4 {
    Vec4 { x: m.r0.w, y: m.r1.w, z: m.r2.w, w: m.r3.w }
}

pub open spec fn spec_mat_vec4(m: Mat4, v: Vec4) -> Vec4 {
    Vec4 {
        x: spec_dot4(m.r0, v) as i64,
        y: spec_dot4(m.r1, v) as i64,
        z: spec_dot4(m.r2, v) as i64,
        w: spec_dot4(m.r3, v) as i64,
    }
}

/// Apply a matrix to a column vector.
pub fn mat_vec4(m: &Mat4, v: &Vec4) -> (r: Vec4)
    requires
        wf_mat4(*m),
        wf_vec4(*v),
    ensures
        r == spec_mat_vec4(*m, *v),
        wf_vec4(r),
{
    Vec4 {
        x: dot4(&m.r0, v),
        y: dot4(&m.r1, v),
        z: dot4(&m.r2, v),
        w: dot4(&m.r3, v),
    }
}

pub open spec fn spec_mat_mul(a: Mat4, b: Mat4) -> Mat4 {
    Mat4 {
        r0: spec_mat_vec4_row(a.r0, b),
        r1: spec_mat_vec4_row(a.r1, b),
        r2: spec_mat_vec4_row(a.r2, b),
        r3: spec_mat_vec4_row(a.r3, b),
    }
}

pub open spec fn spec_mat_vec4_row(row: Vec4, b: Mat4) -> Vec4 {
    Vec4 {
        x: spec_dot4(row, spec_col0(b)) as i64,
        y: spec_dot4(row, spec_col1(b)) as i64,
        z: spec_dot4(row, spec_col2(b)) as i64,
        w: spec_dot4(row, spec_col3(b)) as i64,
    }
}

/// Compose two transforms; the result applies `b` first, then `a`.
pub fn mat_mul(a: &Mat4, b: &Mat4) -> (r: Mat4)
    requires
        wf_mat4(*a),
        wf_mat4(*b),
    ensures
        r == spec_mat_mul(*a, *b),
        wf_mat4(r),
{
    let c0 = Vec4 { x: b.r0.x, y: b.r1.x, z: b.r2.x, w: b.r3.x };
    let c1 = Vec4 { x: b.r0.y, y: b.r1.y, z: b.r2.y, w: b.r3.y };
    let c2 = Vec4 { x: b.r0.z, y: b.r1.z, z: b.r2.z, w: b.r3.z };
    let c3 = Vec4 { x: b.r0.w, y: b.r1.w, z: b.r2.w, w: b.r3.w };
    Mat4 {
        r0: Vec4 {
            x: dot4(&a.r0, &c0),
            y: dot4(&a.r0, &c1),
            z: dot4(&a.r0, &c2),
            w: dot4(&a.r0, &c3),
        },
        r1: Vec4 {
            x: dot4(&a.r1, &c0),
            y: dot4(&a.r1, &c1),
            z: dot4(&a.r1, &c2),
            w: dot4(&a.r1, &c3),
        },
        r2: Vec4 {
            x: dot4(&a.r2, &c0),
            y: dot4(&a.r2, &c1),
            z: dot4(&a.r2, &c2),
            w: dot4(&a.r2, &c3),
        },
        r3: Vec4 {
            x: dot4(&a.r3, &c0),
            y: dot4(&a.r3, &c1),
            z: dot4(&a.r3, &c2),
            w: dot4(&a.r3, &c3),
        },
    }
}

pub open spec fn spec_identity() -> Mat4 {
    Mat4 {
        r0: Vec4 { x: FX_ONE, y: 0, z: 0, w: 0 },
        r1: Vec4 { x: 0, y: FX_ONE, z: 0, w: 0 },
        r2: Vec4 { x: 0, y: 0, z: FX_ONE, w: 0 },
        r3: Vec4 { x: 0, y: 0, z: 0, w: FX_ONE },
    }
}

pub fn identity() -> (r: Mat4)
    ensures
        r == spec_identity(),
        wf_mat4(r),
{
    Mat4 {
        r0: Vec4 { x: FX_ONE, y: 0, z: 0, w: 0 },
        r1: Vec4 { x: 0, y: FX_ONE, z: 0, w: 0 },
        r2: Vec4 { x: 0, y: 0, z: FX_ONE, w: 0 },
        r3: Vec4 { x: 0, y: 0, z: 0, w: FX_ONE },
    }
}

pub open spec fn spec_translation(t: Vec3) -> Mat4 {
    Mat4 {
        r0: Vec4 { x: FX_ONE, y: 0, z: 0, w: t.x },
        r1: Vec4 { x: 0, y: FX_ONE, z: 0, w: t.y },
        r2: Vec4 { x: 0, y: 0, z: FX_ONE, w: t.z },
        r3: Vec4 { x: 0, y: 0, z: 0, w: FX_ONE },
    }
}

/// The transform that moves points by `t`.
pub fn translation(t: &Vec3) -> (r: Mat4)
    requires
        wf_vec3(*t),
    ensures
        r == spec_translation(*t),
        wf_mat4(r),
{
    Mat4 {
        r0: Vec4 { x: FX_ONE, y: 0, z: 0, w: t.x },
        r1: Vec4 { x: 0, y: FX_ONE, z: 0, w: t.y },
        r2: Vec4 { x: 0, y: 0, z: FX_ONE, w: t.z },
        r3: Vec4 { x: 0, y: 0, z: 0, w: FX_ONE },
    }
}

pub open spec fn spec_scaling(f: Vec3) -> Mat4 {
    Mat4 {
        r0: Vec4 { x: f.x, y: 0, z: 0, w: 0 },
        r1: Vec4 { x: 0, y: f.y, z: 0, w: 0 },
        r2: Vec4 { x: 0, y: 0, z: f.z, w: 0 },
        r3: Vec4 { x: 0, y: 0, z: 0, w: FX_ONE },
    }
}

/// The transform that scales each axis by the matching factor.
pub fn scaling(f: &Vec3) -> (r: Mat4)
    requires
        wf_vec3(*f),
    ensures
        r == spec_scaling(*f),
        wf_mat4(r),
{
    Mat4 {
        r0: Vec4 { x: f.x, y: 0, z: 0, w: 0 },
        r1: Vec4 { x: 0, y: f.y, z: 0, w: 0 },
        r2: Vec4 { x: 0, y: 0, z: f.z, w: 0 },
        r3: Vec4 { x: 0, y: 0, z: 0, w: FX_ONE },
    }
}

pub open spec fn spec_rot_x(a: int) -> Mat4 {
    let c = spec_fx_cos(a) as i64;
    let s = spec_fx_sin(a) as i64;
    let ns = (-spec_fx_sin(a)) as i64;
    Mat4 {
        r0: Vec4 { x: FX_ONE, y: 0, z: 0, w: 0 },
        r1: Vec4 { x: 0, y: c, z: ns, w: 0 },
        r2: Vec4 { x: 0, y: s, z: c, w: 0 },
        r3: Vec4 { x: 0, y: 0, z: 0, w: FX_ONE },
    }
}

/// Rotation about the world X axis.
pub fn rot_x(a: i64) -> (r: Mat4)
    requires
        fx_ok(a),
    ensures
        r == spec_rot_x(a as int),
        wf_mat4(r),
{
    let c: i64 = fx_cos(a);
    let s: i64 = fx_sin(a);
    let ns: i64 = fx_neg(s);
    Mat4 {
        r0: Vec4 { x: FX_ONE, y: 0, z: 0, w: 0 },
        r1: Vec4 { x: 0, y: c, z: ns, w: 0 },
        r2: Vec4 { x: 0, y: s, z: c, w: 0 },
        r3: Vec4 { x: 0, y: 0, z: 0, w: FX_ONE },
    }
}

pub open spec fn spec_rot_y(a: int) -> Mat4 {
    let c = spec_fx_cos(a) as i64;
    let s = spec_fx_sin(a) as i64;
    let ns = (-spec_fx_sin(a)) as i64;
    Mat4 {
        r0: Vec4 { x: c, y: 0, z: s, w: 0 },
        r1: Vec4 { x: 0, y: FX_ONE, z: 0, w: 0 },
        r2: Vec4 { x: ns, y: 0, z: c, w: 0 },
        r3: Vec4 { x: 0, y: 0, z: 0, w: FX_ONE },
    }
}

/// Rotation about the world Y axis.
pub fn rot_y(a: i64) -> (r: Mat4)
    requires
        fx_ok(a),
    ensures
        r == spec_rot_y(a as int),
        wf_mat4(r),
{
    let c: i64 = fx_cos(a);
    let s: i64 = fx_sin(a);
    let ns: i64 = fx_neg(s);
    Mat4 {
        r0: Vec4 { x: c, y: 0, z: s, w: 0 },
        r1: Vec4 { x: 0, y: FX_ONE, z: 0, w: 0 },
        r2: Vec4 { x: ns, y: 0, z: c, w: 0 },
        r3: Vec4 { x: 0, y: 0, z: 0, w: FX_ONE },
    }
}

pub open spec fn spec_rot_z(a: int) -> Mat4 {
    let c = spec_fx_cos(a) as i64;
    let s = spec_fx_sin(a) as i64;
    let ns = (-spec_fx_sin(a)) as i64;
    Mat4 {
        r0: Vec4 { x: c, y: ns, z: 0, w: 0 },
        r1: Vec4 { x: s, y: c, z: 0, w: 0 },
        r2: Vec4 { x: 0, y: 0, z: FX_ONE, w: 0 },
        r3: Vec4 { x: 0, y: 0, z: 0, w: FX_ONE },
    }
}

/// Rotation about the world Z axis.
pub fn rot_z(a: i64) -> (r: Mat4)
    requires
        fx_ok(a),
    ensures
        r == spec_rot_z(a as int),
        wf_mat4(r),
{
    let c: i64 = fx_cos(a);
    let s: i64 = fx_sin(a);
    let ns: i64 = fx_neg(s);
    Mat4 {
        r0: Vec4 { x: c, y: ns, z: 0, w: 0 },
        r1: Vec4 { x: s, y: c, z: 0, w: 0 },
        r2: Vec4 { x: 0, y: 0, z: FX_ONE, w: 0 },
        r3: Vec4 { x: 0, y: 0, z: 0, w: FX_ONE },
    }
}

/// The identity is neutral on the left of a composition.
pub proof fn lemma_mat_mul_identity_left(x: Mat4)
    requires
        wf_mat4(x),
    ensures
        spec_mat_mul(spec_identity(), x) == x,
{
    broadcast use vstd::arithmetic::mul::group_mul_basics;
    broadcast use vstd::arithmetic::mul::lemma_mul_is_commutative;

    lemma_tdiv_zero(FX_ONE as int);
    lemma_tdiv_mul_cancel(x.r0.x as int, FX_ONE as int);
    lemma_tdiv_mul_cancel(x.r0.y as int, FX_ONE as int);
    lemma_tdiv_mul_cancel(x.r0.z as int, FX_ONE as int);
    lemma_tdiv_mul_cancel(x.r0.w as int, FX_ONE as int);
    lemma_tdiv_mul_cancel(x.r1.x as int, FX_ONE as int);
    lemma_tdiv_mul_cancel(x.r1.y as int, FX_ONE as int);
    lemma_tdiv_mul_cancel(x.r1.z as int, FX_ONE as int);
    lemma_tdiv_mul_cancel(x.r1.w as int, FX_ONE as int);
    lemma_tdiv_mul_cancel(x.r2.x as int, FX_ONE as int);
    lemma_tdiv_mul_cancel(x.r2.y as int, FX_ONE as int);
    lemma_tdiv_mul_cancel(x.r2.z as int, FX_ONE as int);
    lemma_tdiv_mul_cancel(x.r2.w as int, FX_ONE as int);
    lemma_tdiv_mul_cancel(x.r3.x as int, FX_ONE as int);
    lemma_tdiv_mul_cancel(x.r3.y as int, FX_ONE as int);
    lemma_tdiv_mul_cancel(x.r3.z as int, FX_ONE as int);
    lemma_tdiv_mul_cancel(x.r3.w as int, FX_ONE as int);
}

/// The identity is neutral on the right of a composition.
pub proof fn lemma_mat_mul_identity_right(x: Mat4)
    requires
        wf_mat4(x),
    ensures
        spec_mat_mul(x, spec_identity()) == x,
{
    broadcast use vstd::arithmetic::mul::group_mul_basics;
    broadcast use vstd::arithmetic::mul::lemma_mul_is_commutative;

    lemma_tdiv_zero(FX_ONE as int);
    lemma_tdiv_mul_cancel(x.r0.x as int, FX_ONE as int);
    lemma_tdiv_mul_cancel(x.r0.y as int, FX_ONE as int);
    lemma_tdiv_mul_cancel(x.r0.z as int, FX_ONE as int);
    lemma_tdiv_mul_cancel(x.r0.w as int, FX_ONE as int);
    lemma_tdiv_mul_cancel(x.r1.x as int, FX_ONE as int);
    lemma_tdiv_mul_cancel(x.r1.y as int, FX_ONE as int);
    lemma_tdiv_mul_cancel(x.r1.z as int, FX_ONE as int);
    lemma_tdiv_mul_cancel(x.r1.w as int, FX_ONE as int);
    lemma_tdiv_mul_cancel(x.r2.x as int, FX_ONE as int);
    lemma_tdiv_mul_cancel(x.r2.y as int, FX_ONE as int);
    lemma_tdiv_mul_cancel(x.r2.z as int, FX_ONE as int);
    lemma_tdiv_mul_cancel(x.r2.w as int, FX_ONE as int);
    lemma_tdiv_mul_cancel(x.r3.x as int, FX_ONE as int);
    lemma_tdiv_mul_cancel(x.r3.y as int, FX_ONE as int);
    lemma_tdiv_mul_cancel(x.r3.z as int, FX_ONE as int);
    lemma_tdiv_mul_cancel(x.r3.w as int, FX_ONE as int);
}

/// Composing two translations adds their offsets exactly, as long as both
/// stay in the representable range.
pub proof fn lemma_translation_compose(a: Vec3, b: Vec3)
    requires
        wf_vec3(a),
        wf_vec3(b),
        fx_ok((a.x + b.x) as i64),
        fx_ok((a.y + b.y) as i64),
        fx_ok((a.z + b.z) as i64),
    ensures
        spec_mat_mul(spec_translation(a), spec_translation(b)) == spec_translation(
            spec_vec3_add(a, b),
        ),
{
    broadcast use vstd::arithmetic::mul::group_mul_basics;
    broadcast use vstd::arithmetic::mul::lemma_mul_is_commutative;

    lemma_tdiv_zero(FX_ONE as int);
    lemma_tdiv_mul_cancel(FX_ONE as int, FX_ONE as int);
    lemma_tdiv_mul_cancel(a.x as int, FX_ONE as int);
    lemma_tdiv_mul_cancel(a.y as int, FX_ONE as int);
    lemma_tdiv_mul_cancel(a.z as int, FX_ONE as int);
    lemma_tdiv_mul_cancel(b.x as int, FX_ONE as int);
    lemma_tdiv_mul_cancel(b.y as int, FX_ONE as int);
    lemma_tdiv_mul_cancel(b.z as int, FX_ONE as int);
}

pub open spec fn spec_homog(v: Vec3) -> Vec4 {
    Vec4 { x: v.x, y: v.y, z: v.z, w: FX_ONE }
}

/// The homogeneous point for a position vector.
pub fn homog(v: &Vec3) -> (r: Vec4)
    requires
        wf_vec3(*v),
    ensures
        r == spec_homog(*v),
        wf_vec4(r),
{
    Vec4 { x: v.x, y: v.y, z: v.z, w: FX_ONE }
}

pub open spec fn spec_xyz(v: Vec4) -> Vec3 {
    Vec3 { x: v.x, y: v.y, z: v.z }
}

/// The spatial components of a homogeneous vector.
pub fn xyz(v: &Vec4) -> (r: Vec3)
    requires
        wf_vec4(*v),
    ensures
        r == spec_xyz(*v),
        wf_vec3(r),
{
    Vec3 { x: v.x, y: v.y, z: v.z }
}

pub open spec fn spec_vec4_scale(v: Vec4, k: int) -> Vec4 {
    Vec4 {
        x: spec_fx_mul(v.x as int, k) as i64,
        y: spec_fx_mul(v.y as int, k) as i64,
        z: spec_fx_mul(v.z as int, k) as i64,
        w: spec_fx_mul(v.w as int, k) as i64,
    }
}

/// Scale each component of a homogeneous vector by a scalar.
pub fn vec4_scale(v: &Vec4, k: i64) -> (r: Vec4)
    requires
        wf_vec4(*v),
        fx_ok(k),
    ensures
        r == spec_vec4_scale(*v, k as int),
        wf_vec4(r),
{
    Vec4 { x: fx_mul(v.x, k), y: fx_mul(v.y, k), z: fx_mul(v.z, k), w: fx_mul(v.w, k) }
}

} // verus!
