//! Saturating fixed-point scalar arithmetic.
//!
//! Every scalar of the camera subsystem is an `i128` holding a real value
//! scaled by `FX_ONE`. Results of every operation are clamped into
//! `[-FX_MAX, FX_MAX]`, so well-formedness (`fx_in_range`) is preserved by
//! construction and no overflow can occur anywhere in the matrix pipeline.

use vstd::prelude::*;
use vstd::arithmetic::div_mod::lemma_div_is_ordered_by_denominator;
use vstd::arithmetic::div_mod::lemma_div_pos_is_pos;

verus! {

/// The fixed-point unit: one real-valued `1.0`.
pub const FX_ONE: i128 = 4096;

/// Saturation bound of every fixed-point scalar (2^60 units).
pub const FX_MAX: i128 = 1152921504606846976;

pub open spec fn fx_in_range(x: int) -> bool {
    -FX_MAX <= x && x <= FX_MAX
}

/// Clamp a mathematical integer into the representable fixed-point range.
pub open spec fn fx_clamp(x: int) -> int {
    if x > FX_MAX as int {
        FX_MAX as int
    } else if x < -(FX_MAX as int) {
        -(FX_MAX as int)
    } else {
        x
    }
}

/// Clamp a mathematical integer into `[1, FX_MAX]`: the saturation of a
/// scale factor that must stay positive. A value a degenerate parameter
/// combination would truncate to zero saturates at the smallest
/// representable positive scale instead.
pub open spec fn fx_clamp_pos(x: int) -> int {
    if x < 1 {
        1
    } else if x > FX_MAX as int {
        FX_MAX as int
    } else {
        x
    }
}

/// Division truncating toward zero, the rounding of every fixed-point divide.
pub open spec fn tdiv(p: int, d: int) -> int
    recommends
        d > 0,
{
    if p >= 0 {
        p / d
    } else {
        -((-p) / d)
    }
}

pub open spec fn spec_fx_add(a: int, b: int) -> int {
    fx_clamp(a + b)
}

pub open spec fn spec_fx_sub(a: int, b: int) -> int {
    fx_clamp(a - b)
}

pub open spec fn spec_fx_mul(a: int, b: int) -> int {
    fx_clamp(tdiv(a * b, FX_ONE as int))
}

pub open spec fn spec_fx_div(a: int, b: int) -> int
    recommends
        b > 0,
{
    fx_clamp(tdiv(a * FX_ONE, b))
}

pub proof fn lemma_fx_prod_in_i128(a: int, b: int)
    by (nonlinear_arith)
    requires
        fx_in_range(a),
        fx_in_range(b),
    ensures
        -(FX_MAX as int) * (FX_MAX as int) <= a * b <= (FX_MAX as int) * (FX_MAX as int),
{
}

pub proof fn lemma_fx_scale_in_i128(a: int)
    by (nonlinear_arith)
    requires
        fx_in_range(a),
    ensures
        -(FX_MAX as int) * (FX_ONE as int) <= a * (FX_ONE as int) <= (FX_MAX as int) * (
        FX_ONE as int),
{
}

/// Clamp an in-bounds `i128` into the fixed-point range.
pub fn fx_clamp_exec(x: i128) -> (r: i128)
    ensures
        r as int == fx_clamp(x as int),
{
    if x > FX_MAX {
        FX_MAX
    } else if x < -FX_MAX {
        -FX_MAX
    } else {
        x
    }
}

/// Clamp an in-bounds `i128` into the positive fixed-point range.
pub fn fx_clamp_pos_exec(x: i128) -> (r: i128)
    ensures
        r as int == fx_clamp_pos(x as int),
        1 <= r <= FX_MAX,
{
    if x < 1 {
        1
    } else if x > FX_MAX {
        FX_MAX
    } else {
        x
    }
}

/// Truncating division of `p` by a positive divisor `d`.
pub fn fx_tdiv(p: i128, d: i128) -> (r: i128)
    requires
        p > i128::MIN,
        d >= 1,
    ensures
        r as int == tdiv(p as int, d as int),
        p >= 0 ==> 0 <= r <= p,
        p < 0 ==> p <= r <= 0,
{
    if p >= 0 {
        let q = (p as u128) / (d as u128);
        proof {
            lemma_div_is_ordered_by_denominator(p as int, 1, d as int);
            lemma_div_pos_is_pos(p as int, d as int);
        }
        q as i128
    } else {
        let n = -p;
        let q = (n as u128) / (d as u128);
        proof {
            lemma_div_is_ordered_by_denominator(n as int, 1, d as int);
            lemma_div_pos_is_pos(n as int, d as int);
        }
        -(q as i128)
    }
}

pub fn fx_add(a: i128, b: i128) -> (r: i128)
    requires
        fx_in_range(a as int),
        fx_in_range(b as int),
    ensures
        r as int == spec_fx_add(a as int, b as int),
        fx_in_range(r as int),
{
    fx_clamp_exec(a + b)
}

pub fn fx_sub(a: i128, b: i128) -> (r: i128)
    requires
        fx_in_range(a as int),
        fx_in_range(b as int),
    ensures
        r as int == spec_fx_sub(a as int, b as int),
        fx_in_range(r as int),
{
    fx_clamp_exec(a - b)
}

pub fn fx_neg(a: i128) -> (r: i128)
    requires
        fx_in_range(a as int),
    ensures
        r as int == -(a as int),
        fx_in_range(r as int),
{
    -a
}

pub fn fx_mul(a: i128, b: i128) -> (r: i128)
    requires
        fx_in_range(a as int),
        fx_in_range(b as int),
    ensures
        r as int == spec_fx_mul(a as int, b as int),
        fx_in_range(r as int),
{
    proof {
        lemma_fx_prod_in_i128(a as int, b as int);
    }
    let p = a * b;
    let q = fx_tdiv(p, FX_ONE);
    fx_clamp_exec(q)
}

/// Fixed-point division `a / b` for a positive divisor.
pub fn fx_div(a: i128, b: i128) -> (r: i128)
    requires
        fx_in_range(a as int),
        1 <= b,
        fx_in_range(b as int),
    ensures
        r as int == spec_fx_div(a as int, b as int),
        fx_in_range(r as int),
{
    proof {
        lemma_fx_prod_in_i128(a as int, FX_ONE as int);
    }
    let p = a * FX_ONE;
    let q = fx_tdiv(p, b);
    fx_clamp_exec(q)
}

/// `r` is the integer square root of `n`.
pub open spec fn is_isqrt(n: int, r: int) -> bool {
    0 <= r && r * r <= n && n < (r + 1) * (r + 1)
}

pub open spec fn spec_isqrt(n: int) -> int {
    choose|r: int| is_isqrt(n, r)
}

pub proof fn lemma_isqrt_unique(n: int, r1: int, r2: int)
    by (nonlinear_arith)
    requires
        is_isqrt(n, r1),
        is_isqrt(n, r2),
    ensures
        r1 == r2,
{
}

/// Integer square root by bisection.
pub fn isqrt(n: u128) -> (r: u128)
    requires
        (n as int) < 85070591730234615865843651857942052864,  // 2^126
    ensures
        is_isqrt(n as int, r as int),
        r as int == spec_isqrt(n as int),
        r <= 9223372036854775808,
{
    let mut lo: u128 = 0;
    let mut hi: u128 = 9223372036854775808;  // 2^63
    proof {
        assert((hi as int) * (hi as int) == 85070591730234615865843651857942052864)
            by (nonlinear_arith)
            requires
                hi == 9223372036854775808,
        ;
    }
    while lo + 1 < hi
        invariant
            (lo as int) * (lo as int) <= n as int,
            (n as int) < (hi as int) * (hi as int),
            lo < hi,
            hi <= 9223372036854775808,
        decreases hi - lo,
    {
        let mid = lo + (hi - lo) / 2;
        proof {
            assert((mid as int) * (mid as int) < 170141183460469231731687303715884105728)
                by (nonlinear_arith)
                requires
                    0 <= mid as int <= 9223372036854775808,
            ;
        }
        if mid * mid <= n {
            lo = mid;
        } else {
            hi = mid;
        }
    }
    proof {
        assert(is_isqrt(n as int, lo as int));
        lemma_isqrt_unique(n as int, lo as int, spec_isqrt(n as int));
    }
    lo
}

} // verus!
