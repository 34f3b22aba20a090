//! Fixed-point trigonometry and vector magnitude.
//!
//! Angles are fixed-point radians. Sine and cosine reduce the angle into
//! one quadrant and evaluate a truncated power series there; `fx_atan2`
//! uses a rational approximation of the arctangent. Each function's result
//! is pinned exactly by a spec-level mirror of the same computation, and is
//! clamped into its mathematical range, so the range facts below hold for
//! every input.

use vstd::prelude::*;
use crate::fixed::{
    clip, div_trunc, fx_abs, fx_clamp, fx_mul, fx_div, fx_neg, fx_ok, lemma_tdiv_magnitude,
    lemma_tdiv_mul_cancel, lemma_tdiv_ordered, lemma_tdiv_zero, lemma_trem_range, rem_trunc,
    spec_fx_clamp, spec_fx_div, spec_fx_mul, tdiv, trem, FX_MAX, FX_ONE,
};
use vstd::arithmetic::div_mod::lemma_small_mod;

verus! {

/// Pi in fixed-point radians.
pub const PI_FX: i64 = 205887;

/// Two pi, kept exactly twice `PI_FX`.
pub const TWO_PI_FX: i64 = 411774;

/// Half pi (rounded to the nearest representable value).
pub const HALF_PI_FX: i64 = 102944;

/// Quarter pi (rounded to the nearest representable value).
pub const QUARTER_PI_FX: i64 = 51472;

/// Wrap an angle into `[0, TWO_PI_FX)`.
pub open spec fn spec_wrap_angle(x: int) -> int {
    let r = trem(x, TWO_PI_FX as int);
    if r < 0 {
        r + TWO_PI_FX
    } else {
        r
    }
}

pub fn wrap_angle(x: i64) -> (r: i64)
    requires
        x > i64::MIN,
    ensures
        r == spec_wrap_angle(x as int),
        0 <= r < TWO_PI_FX,
{
    proof {
        lemma_trem_range(x as int, TWO_PI_FX as int);
    }
    let t: i64 = rem_trunc(x, TWO_PI_FX);
    if t < 0 {
        t + TWO_PI_FX
    } else {
        t
    }
}

/// Truncated power series for sine on `[0, HALF_PI_FX]`.
pub open spec fn spec_sin_poly(v: int) -> int {
    let v2 = spec_fx_mul(v, v);
    let v3 = spec_fx_mul(v2, v);
    let v5 = spec_fx_mul(v3, v2);
    let v7 = spec_fx_mul(v5, v2);
    spec_fx_clamp(
        v - tdiv(v3, 6) + tdiv(v5, 120) - tdiv(v7, 5040),
        -(FX_ONE as int),
        FX_ONE as int,
    )
}

fn sin_poly(v: i64) -> (r: i64)
    requires
        0 <= v <= HALF_PI_FX,
    ensures
        r == spec_sin_poly(v as int),
        -FX_ONE <= r <= FX_ONE,
{
    let v2: i64 = fx_mul(v, v);
    let v3: i64 = fx_mul(v2, v);
    let v5: i64 = fx_mul(v3, v2);
    let v7: i64 = fx_mul(v5, v2);
    let t3: i64 = div_trunc(v3, 6);
    let t5: i64 = div_trunc(v5, 120);
    let t7: i64 = div_trunc(v7, 5040);
    proof {
        lemma_tdiv_magnitude(v3 as int, 6);
        lemma_tdiv_magnitude(v5 as int, 120);
        lemma_tdiv_magnitude(v7 as int, 5040);
    }
    let raw: i64 = v - t3 + t5 - t7;
    fx_clamp(raw, -FX_ONE, FX_ONE)
}

/// Truncated power series for cosine on `[0, HALF_PI_FX]`.
pub open spec fn spec_cos_poly(v: int) -> int {
    let v2 = spec_fx_mul(v, v);
    let v4 = spec_fx_mul(v2, v2);
    let v6 = spec_fx_mul(v4, v2);
    spec_fx_clamp(
        FX_ONE - tdiv(v2, 2) + tdiv(v4, 24) - tdiv(v6, 720),
        -(FX_ONE as int),
        FX_ONE as int,
    )
}

fn cos_poly(v: i64) -> (r: i64)
    requires
        0 <= v <= HALF_PI_FX,
    ensures
        r == spec_cos_poly(v as int),
        -FX_ONE <= r <= FX_ONE,
{
    let v2: i64 = fx_mul(v, v);
    let v4: i64 = fx_mul(v2, v2);
    let v6: i64 = fx_mul(v4, v2);
    let t2: i64 = div_trunc(v2, 2);
    let t4: i64 = div_trunc(v4, 24);
    let t6: i64 = div_trunc(v6, 720);
    proof {
        lemma_tdiv_magnitude(v2 as int, 2);
        lemma_tdiv_magnitude(v4 as int, 24);
        lemma_tdiv_magnitude(v6 as int, 720);
    }
    let raw: i64 = FX_ONE - t2 + t4 - t6;
    fx_clamp(raw, -FX_ONE, FX_ONE)
}

/// Sine of an angle already wrapped into `[0, TWO_PI_FX)`, by quadrant
/// reduction onto the power series.
pub open spec fn spec_sin_reduced(w: int) -> int {
    if w <= HALF_PI_FX {
        spec_sin_poly(w)
    } else if w <= PI_FX {
        spec_sin_poly(PI_FX - w)
    } else if w <= PI_FX + HALF_PI_FX {
        -spec_sin_poly(w - PI_FX)
    } else {
        -spec_sin_poly(TWO_PI_FX - w)
    }
}

fn sin_reduced(w: i64) -> (r: i64)
    requires
        0 <= w < TWO_PI_FX,
    ensures
        r == spec_sin_reduced(w as int),
        -FX_ONE <= r <= FX_ONE,
{
    if w <= HALF_PI_FX {
        sin_poly(w)
    } else if w <= PI_FX {
        sin_poly(PI_FX - w)
    } else if w <= PI_FX + HALF_PI_FX {
        let s: i64 = sin_poly(w - PI_FX);
        -s
    } else {
        let s: i64 = sin_poly(TWO_PI_FX - w);
        -s
    }
}

/// Cosine of an angle already wrapped into `[0, TWO_PI_FX)`.
pub open spec fn spec_cos_reduced(w: int) -> int {
    if w <= HALF_PI_FX {
        spec_cos_poly(w)
    } else if w <= PI_FX {
        -spec_cos_poly(PI_FX - w)
    } else if w <= PI_FX + HALF_PI_FX {
        -spec_cos_poly(w - PI_FX)
    } else {
        spec_cos_poly(TWO_PI_FX - w)
    }
}

fn cos_reduced(w: i64) -> (r: i64)
    requires
        0 <= w < TWO_PI_FX,
    ensures
        r == spec_cos_reduced(w as int),
        -FX_ONE <= r <= FX_ONE,
{
    if w <= HALF_PI_FX {
        cos_poly(w)
    } else if w <= PI_FX {
        let c: i64 = cos_poly(PI_FX - w);
        -c
    } else if w <= PI_FX + HALF_PI_FX {
        let c: i64 = cos_poly(w - PI_FX);
        -c
    } else {
        cos_poly(TWO_PI_FX - w)
    }
}

pub open spec fn spec_fx_sin(x: int) -> int {
    spec_sin_reduced(spec_wrap_angle(x))
}

/// Fixed-point sine, total over every representable angle.
pub fn fx_sin(x: i64) -> (r: i64)
    requires
        x > i64::MIN,
    ensures
        r == spec_fx_sin(x as int),
        -FX_ONE <= r <= FX_ONE,
{
    let w: i64 = wrap_angle(x);
    sin_reduced(w)
}

pub open spec fn spec_fx_cos(x: int) -> int {
    spec_cos_reduced(spec_wrap_angle(x))
}

/// Fixed-point cosine, total over every representable angle.
pub fn fx_cos(x: i64) -> (r: i64)
    requires
        x > i64::MIN,
    ensures
        r == spec_fx_cos(x as int),
        -FX_ONE <= r <= FX_ONE,
{
    let w: i64 = wrap_angle(x);
    cos_reduced(w)
}

/// Sine is exactly zero and cosine exactly one at angle zero, so rotation
/// matrices built for a zero angle are exact identities.
pub proof fn lemma_trig_zero()
    ensures
        spec_fx_sin(0) == 0,
        spec_fx_cos(0) == FX_ONE,
{
    lemma_small_mod(0nat, TWO_PI_FX as nat);
    assert(spec_wrap_angle(0) == 0);
    lemma_tdiv_zero(FX_ONE as int);
    lemma_tdiv_zero(6);
    lemma_tdiv_zero(120);
    lemma_tdiv_zero(5040);
    lemma_tdiv_zero(2);
    lemma_tdiv_zero(24);
    lemma_tdiv_zero(720);
    assert(spec_fx_mul(0, 0) == 0);
    assert(spec_sin_poly(0) == 0);
    assert(spec_cos_poly(0) == FX_ONE);
}

/// Sine and cosine always land in `[-FX_ONE, FX_ONE]`.
pub proof fn lemma_trig_range(a: int)
    ensures
        -(FX_ONE as int) <= spec_fx_sin(a) <= FX_ONE as int,
        -(FX_ONE as int) <= spec_fx_cos(a) <= FX_ONE as int,
{
}

pub const ATAN_C1: i64 = 16037;

pub const ATAN_C2: i64 = 4345;

/// Rational approximation of the arctangent on `[0, FX_ONE]`, with the
/// result clamped into `[0, HALF_PI_FX]`.
pub open spec fn spec_atan_poly(z: int) -> int {
    let curve = ATAN_C1 + spec_fx_mul(ATAN_C2 as int, z);
    let raw = spec_fx_mul(QUARTER_PI_FX as int, z) + spec_fx_mul(spec_fx_mul(z, FX_ONE - z), curve);
    spec_fx_clamp(raw, 0, HALF_PI_FX as int)
}

fn atan_poly(z: i64) -> (r: i64)
    requires
        0 <= z <= FX_ONE,
    ensures
        r == spec_atan_poly(z as int),
        0 <= r <= HALF_PI_FX,
{
    let c2z: i64 = fx_mul(ATAN_C2, z);
    proof {
        lemma_tdiv_ordered((ATAN_C2 * z) as int, (ATAN_C2 * FX_ONE) as int, FX_ONE as int);
        lemma_tdiv_mul_cancel(ATAN_C2 as int, FX_ONE as int);
        lemma_tdiv_magnitude((ATAN_C2 * z) as int, FX_ONE as int);
    }
    let curve: i64 = ATAN_C1 + c2z;
    let t1: i64 = fx_mul(QUARTER_PI_FX, z);
    let zz: i64 = fx_mul(z, FX_ONE - z);
    let t2: i64 = fx_mul(zz, curve);
    let raw: i64 = t1 + t2;
    fx_clamp(raw, 0, HALF_PI_FX)
}

/// Fixed-point four-quadrant arctangent: the angle of the vector `(x, y)`,
/// in `[-PI_FX, PI_FX]`. Both components zero yield angle zero.
pub open spec fn spec_fx_atan2(y: int, x: int) -> int {
    if x == 0 && y == 0 {
        0
    } else {
        let ax = if x >= 0 { x } else { -x };
        let ay = if y >= 0 { y } else { -y };
        let base = if ax >= ay {
            spec_atan_poly(spec_fx_div(ay, ax))
        } else {
            HALF_PI_FX - spec_atan_poly(spec_fx_div(ax, ay))
        };
        let mag = if x >= 0 {
            base
        } else {
            PI_FX - base
        };
        if y >= 0 {
            mag
        } else {
            -mag
        }
    }
}

pub fn fx_atan2(y: i64, x: i64) -> (r: i64)
    requires
        fx_ok(y),
        fx_ok(x),
    ensures
        r == spec_fx_atan2(y as int, x as int),
        -PI_FX <= r <= PI_FX,
{
    if x == 0 && y == 0 {
        return 0;
    }
    let ax: i64 = fx_abs(x);
    let ay: i64 = fx_abs(y);
    let base: i64 = if ax >= ay {
        proof {
            lemma_tdiv_ordered((ay * FX_ONE) as int, (ax * FX_ONE) as int, ax as int);
            lemma_tdiv_mul_cancel(FX_ONE as int, ax as int);
            lemma_tdiv_magnitude((ay * FX_ONE) as int, ax as int);
        }
        let z: i64 = fx_div(ay, ax);
        atan_poly(z)
    } else {
        proof {
            lemma_tdiv_ordered((ax * FX_ONE) as int, (ay * FX_ONE) as int, ay as int);
            lemma_tdiv_mul_cancel(FX_ONE as int, ay as int);
            lemma_tdiv_magnitude((ax * FX_ONE) as int, ay as int);
        }
        let z: i64 = fx_div(ax, ay);
        let a: i64 = atan_poly(z);
        HALF_PI_FX - a
    };
    let mag: i64 = if x >= 0 {
        base
    } else {
        PI_FX - base
    };
    if y >= 0 {
        mag
    } else {
        -mag
    }
}

/// `r` is the integer square root of `n`.
pub open spec fn is_isqrt(n: int, r: int) -> bool {
    0 <= r && r * r <= n && n < (r + 1) * (r + 1)
}

/// The integer square root, as a value: the unique `r` with
/// `r * r <= n < (r + 1) * (r + 1)`.
pub open spec fn spec_isqrt(n: int) -> int {
    choose|r: int| is_isqrt(n, r)
}

pub proof fn lemma_isqrt_unique(n: int, r: int)
    requires
        is_isqrt(n, r),
    ensures
        spec_isqrt(n) == r,
{
    assert(exists|s: int| is_isqrt(n, s));
    let s = spec_isqrt(n);
    assert(is_isqrt(n, s));
    if s < r {
        assert((s + 1) * (s + 1) <= r * r) by (nonlinear_arith)
            requires
                0 <= s,
                s < r,
        ;
        assert(false);
    }
    if s > r {
        assert((r + 1) * (r + 1) <= s * s) by (nonlinear_arith)
            requires
                0 <= r,
                r < s,
        ;
        assert(false);
    }
}

/// Fixed-point magnitude of a 2D vector, saturated into the representable
/// range.
pub fn fx_mag2(x: i64, z: i64) -> (r: i64)
    requires
        fx_ok(x),
        fx_ok(z),
    ensures
        r == clip(spec_isqrt(x * x + z * z)),
        fx_ok(r),
        r >= 0,
{
    let ax: i64 = fx_abs(x);
    let az: i64 = fx_abs(z);
    proof {
        assert(ax * ax == x * x && ax * ax <= 0x4000_0000_0000_0000) by (nonlinear_arith)
            requires
                ax == (if x >= 0 { x as int } else { -(x as int) }),
                -(FX_MAX as int) <= x <= FX_MAX as int,
                FX_MAX == 0x8000_0000,
        ;
        assert(az * az == z * z && az * az <= 0x4000_0000_0000_0000) by (nonlinear_arith)
            requires
                az == (if z >= 0 { z as int } else { -(z as int) }),
                -(FX_MAX as int) <= z <= FX_MAX as int,
                FX_MAX == 0x8000_0000,
        ;
    }
    let xs: u64 = (ax as u64) * (ax as u64);
    let zs: u64 = (az as u64) * (az as u64);
    let n: u64 = xs + zs;
    let q: u64 = crate::fixed::isqrt64(n);
    proof {
        lemma_isqrt_unique(n as int, q as int);
    }
    if q >= FX_MAX as u64 {
        FX_MAX
    } else {
        q as i64
    }
}

/// Fixed-point magnitude of a 3D vector, saturated into the representable
/// range.
pub fn fx_mag3(x: i64, y: i64, z: i64) -> (r: i64)
    requires
        fx_ok(x),
        fx_ok(y),
        fx_ok(z),
    ensures
        r == clip(spec_isqrt(x * x + y * y + z * z)),
        fx_ok(r),
        r >= 0,
{
    let ax: i64 = fx_abs(x);
    let ay: i64 = fx_abs(y);
    let az: i64 = fx_abs(z);
    proof {
        assert(ax * ax == x * x && ax * ax <= 0x4000_0000_0000_0000) by (nonlinear_arith)
            requires
                ax == (if x >= 0 { x as int } else { -(x as int) }),
                -(FX_MAX as int) <= x <= FX_MAX as int,
                FX_MAX == 0x8000_0000,
        ;
        assert(ay * ay == y * y && ay * ay <= 0x4000_0000_0000_0000) by (nonlinear_arith)
            requires
                ay == (if y >= 0 { y as int } else { -(y as int) }),
                -(FX_MAX as int) <= y <= FX_MAX as int,
                FX_MAX == 0x8000_0000,
        ;
        assert(az * az == z * z && az * az <= 0x4000_0000_0000_0000) by (nonlinear_arith)
            requires
                az == (if z >= 0 { z as int } else { -(z as int) }),
                -(FX_MAX as int) <= z <= FX_MAX as int,
                FX_MAX == 0x8000_0000,
        ;
    }
    let xs: u64 = (ax as u64) * (ax as u64);
    let ys: u64 = (ay as u64) * (ay as u64);
    let zs: u64 = (az as u64) * (az as u64);
    let n: u64 = xs + ys + zs;
    let q: u64 = crate::fixed::isqrt64(n);
    proof {
        lemma_isqrt_unique(n as int, q as int);
    }
    if q >= FX_MAX as u64 {
        FX_MAX
    } else {
        q as i64
    }
}

} // verus!
