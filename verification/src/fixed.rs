//! Fixed-point scalar arithmetic.
//!
//! A scalar is an `i64` holding the real value scaled by `FX_ONE` (2^16).
//! Every operation saturates its result into `[-FX_MAX, FX_MAX]`, so all
//! operations are total over well-formed scalars. Multiplication and
//! division truncate toward zero, mirroring the rounding of the binary
//! operations they stand for.

use vstd::prelude::*;
use vstd::arithmetic::div_mod::{
    lemma_basic_div, lemma_div_is_ordered, lemma_div_multiples_vanish, lemma_div_nonincreasing,
    lemma_div_pos_is_pos, lemma_small_mod,
};

verus! {

/// One, in fixed-point representation: real values are scaled by this factor.
pub const FX_ONE: i64 = 65536;

/// Largest magnitude a fixed-point scalar may take (2^31).
pub const FX_MAX: i64 = 0x8000_0000;

/// A well-formed fixed-point scalar.
pub open spec fn fx_ok(x: i64) -> bool {
    -(FX_MAX as int) <= x <= FX_MAX as int
}

/// Saturate an unbounded intermediate result into the representable range.
pub open spec fn clip(v: int) -> int {
    if v > FX_MAX as int {
        FX_MAX as int
    } else if v < -(FX_MAX as int) {
        -(FX_MAX as int)
    } else {
        v
    }
}

/// Division truncating toward zero, for a positive divisor.
pub open spec fn tdiv(a: int, d: int) -> int
    recommends
        d > 0,
{
    if a >= 0 {
        a / d
    } else {
        -((-a) / d)
    }
}

/// Remainder of division truncating toward zero, for a positive divisor.
/// The result carries the sign of the dividend.
pub open spec fn trem(a: int, d: int) -> int
    recommends
        d > 0,
{
    if a >= 0 {
        a % d
    } else {
        -((-a) % d)
    }
}

pub proof fn lemma_tdiv_zero(d: int)
    requires
        d > 0,
    ensures
        tdiv(0, d) == 0,
{
    lemma_basic_div(0, d);
}

/// Truncating division is an odd function of the dividend.
pub proof fn lemma_tdiv_neg(a: int, d: int)
    requires
        d > 0,
    ensures
        tdiv(-a, d) == -tdiv(a, d),
{
    if a == 0 {
        lemma_tdiv_zero(d);
    }
}

/// Dividing an exact multiple recovers the factor.
pub proof fn lemma_tdiv_mul_cancel(x: int, d: int)
    requires
        d > 0,
    ensures
        tdiv(x * d, d) == x,
{
    if x >= 0 {
        lemma_div_multiples_vanish(x, d);
        assert(x * d == d * x) by (nonlinear_arith);
        assert(x * d >= 0) by (nonlinear_arith)
            requires
                x >= 0 && d > 0,
        ;
    } else {
        lemma_div_multiples_vanish(-x, d);
        assert(-(x * d) == d * (-x)) by (nonlinear_arith);
        assert(x * d < 0) by (nonlinear_arith)
            requires
                x < 0 && d > 0,
        ;
    }
}

/// Truncating division never grows the magnitude of the dividend.
pub proof fn lemma_tdiv_magnitude(a: int, d: int)
    requires
        d > 0,
    ensures
        a >= 0 ==> 0 <= tdiv(a, d) <= a,
        a < 0 ==> a <= tdiv(a, d) <= 0,
{
    if a >= 0 {
        lemma_div_pos_is_pos(a, d);
        lemma_div_nonincreasing(a, d);
    } else {
        lemma_div_pos_is_pos(-a, d);
        lemma_div_nonincreasing(-a, d);
    }
}

/// Truncating division is monotone on non-negative dividends.
pub proof fn lemma_tdiv_ordered(x: int, y: int, d: int)
    requires
        d > 0,
        0 <= x <= y,
    ensures
        tdiv(x, d) <= tdiv(y, d),
{
    lemma_div_is_ordered(x, y, d);
}

/// A scaled product of bounded factors is bounded by the scaled product of
/// the bounds.
pub proof fn lemma_tdiv_prod_bound(x: int, y: int, bx: int, by: int)
    requires
        -bx <= x <= bx,
        -by <= y <= by,
        0 <= bx,
        0 <= by,
    ensures
        -tdiv(bx * by, FX_ONE as int) <= tdiv(x * y, FX_ONE as int) <= tdiv(
            bx * by,
            FX_ONE as int,
        ),
{
    assert(-(bx * by) <= x * y <= bx * by) by (nonlinear_arith)
        requires
            -bx <= x <= bx,
            -by <= y <= by,
            0 <= bx,
            0 <= by,
    ;
    lemma_tdiv_magnitude(bx * by, FX_ONE as int);
    if x * y >= 0 {
        lemma_tdiv_ordered(x * y, bx * by, FX_ONE as int);
        lemma_tdiv_magnitude(x * y, FX_ONE as int);
    } else {
        lemma_tdiv_ordered(-(x * y), bx * by, FX_ONE as int);
        lemma_tdiv_neg(x * y, FX_ONE as int);
        lemma_tdiv_magnitude(-(x * y), FX_ONE as int);
    }
}

/// The truncating remainder stays strictly below the divisor in magnitude.
pub proof fn lemma_trem_range(a: int, d: int)
    requires
        d > 0,
    ensures
        -d < trem(a, d) < d,
        a >= 0 ==> 0 <= trem(a, d),
        a < 0 ==> trem(a, d) <= 0,
{
}

/// Saturate an `i64` into the representable fixed-point range.
pub fn clip_sat(v: i64) -> (r: i64)
    ensures
        r == clip(v as int),
        fx_ok(r),
{
    if v > FX_MAX {
        FX_MAX
    } else if v < -FX_MAX {
        -FX_MAX
    } else {
        v
    }
}

/// Truncating division of an `i64` by a positive divisor.
pub fn div_trunc(a: i64, d: i64) -> (r: i64)
    requires
        d > 0,
        a > i64::MIN,
    ensures
        r == tdiv(a as int, d as int),
{
    proof {
        lemma_tdiv_magnitude(a as int, d as int);
    }
    let q: Option<i64> = a.checked_div(d);
    q.unwrap()
}

/// Truncating remainder of an `i64` by a positive divisor.
pub fn rem_trunc(a: i64, d: i64) -> (r: i64)
    requires
        d > 0,
        a > i64::MIN,
    ensures
        r == trem(a as int, d as int),
{
    proof {
        lemma_trem_range(a as int, d as int);
        if a == 0 {
            lemma_small_mod(0, d as nat);
        }
    }
    let q: Option<i64> = a.checked_rem(d);
    q.unwrap()
}

pub open spec fn spec_fx_add(a: int, b: int) -> int {
    clip(a + b)
}

/// Saturating fixed-point addition.
pub fn fx_add(a: i64, b: i64) -> (r: i64)
    requires
        fx_ok(a),
        fx_ok(b),
    ensures
        r == spec_fx_add(a as int, b as int),
        fx_ok(r),
{
    clip_sat(a + b)
}

pub open spec fn spec_fx_sub(a: int, b: int) -> int {
    clip(a - b)
}

/// Saturating fixed-point subtraction.
pub fn fx_sub(a: i64, b: i64) -> (r: i64)
    requires
        fx_ok(a),
        fx_ok(b),
    ensures
        r == spec_fx_sub(a as int, b as int),
        fx_ok(r),
{
    clip_sat(a - b)
}

/// Fixed-point negation; exact, since the representable range is symmetric.
pub fn fx_neg(a: i64) -> (r: i64)
    requires
        fx_ok(a),
    ensures
        r == -(a as int),
        fx_ok(r),
{
    -a
}

pub open spec fn spec_fx_mul(a: int, b: int) -> int {
    clip(tdiv(a * b, FX_ONE as int))
}

/// Saturating fixed-point multiplication, truncating toward zero.
pub fn fx_mul(a: i64, b: i64) -> (r: i64)
    requires
        fx_ok(a),
        fx_ok(b),
    ensures
        r == spec_fx_mul(a as int, b as int),
        fx_ok(r),
{
    proof {
        assert(-0x4000_0000_0000_0000 <= (a as int) * (b as int) <= 0x4000_0000_0000_0000)
            by (nonlinear_arith)
            requires
                -(FX_MAX as int) <= a <= FX_MAX as int,
                -(FX_MAX as int) <= b <= FX_MAX as int,
                FX_MAX == 0x8000_0000,
        ;
    }
    let p: i64 = a * b;
    let q: i64 = div_trunc(p, FX_ONE);
    clip_sat(q)
}

pub open spec fn spec_fx_div(a: int, d: int) -> int {
    clip(tdiv(a * FX_ONE, d))
}

/// Saturating fixed-point division by a positive divisor, truncating toward
/// zero.
pub fn fx_div(a: i64, d: i64) -> (r: i64)
    requires
        fx_ok(a),
        d > 0,
    ensures
        r == spec_fx_div(a as int, d as int),
        fx_ok(r),
{
    let p: i64 = a * FX_ONE;
    let q: i64 = div_trunc(p, d);
    clip_sat(q)
}

pub open spec fn spec_fx_clamp(x: int, lo: int, hi: int) -> int {
    if x < lo {
        lo
    } else if x > hi {
        hi
    } else {
        x
    }
}

/// Clamp a scalar into `[lo, hi]`.
pub fn fx_clamp(x: i64, lo: i64, hi: i64) -> (r: i64)
    requires
        lo <= hi,
    ensures
        r == spec_fx_clamp(x as int, lo as int, hi as int),
        lo <= r <= hi,
{
    if x < lo {
        lo
    } else if x > hi {
        hi
    } else {
        x
    }
}

/// Absolute value; exact, since the representable range is symmetric.
pub fn fx_abs(a: i64) -> (r: i64)
    requires
        fx_ok(a),
    ensures
        r == if a >= 0 { a as int } else { -(a as int) },
        fx_ok(r),
        r >= 0,
{
    if a >= 0 {
        a
    } else {
        -a
    }
}

/// Integer square root: the greatest `r` with `r * r <= n`.
pub fn isqrt64(n: u64) -> (r: u64)
    ensures
        r * r <= n,
        (r + 1) * (r + 1) > n,
        r < 0x1_0000_0000,
{
    let mut lo: u64 = 0;
    let mut hi: u64 = 0x1_0000_0000;
    while hi - lo > 1
        invariant
            lo < hi <= 0x1_0000_0000,
            lo * lo <= n,
            (hi as int) * (hi as int) > n,
        decreases hi - lo,
    {
        let mid: u64 = lo + (hi - lo) / 2;
        proof {
            assert(mid < 0x1_0000_0000);
            assert((mid as int) * (mid as int) < 0x1_0000_0000_0000_0000) by (nonlinear_arith)
                requires
                    0 <= mid < 0x1_0000_0000int,
            ;
        }
        if mid * mid <= n {
            lo = mid;
        } else {
            hi = mid;
        }
    }
    lo
}

} // verus!
