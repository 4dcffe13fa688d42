//! Fixed-point 3-component vectors: the camera's eye, target and up.

use vstd::prelude::*;
use crate::fixed::{
    fx_add, fx_clamp, fx_clamp_exec, fx_in_range, fx_mul, fx_neg, fx_sub, fx_tdiv, is_isqrt,
    isqrt, lemma_isqrt_unique, spec_fx_add, spec_fx_mul, spec_fx_sub, spec_isqrt, tdiv, FX_ONE,
};

verus! {

#[derive(Clone, Copy, Debug, PartialEq, Eq, Structural)]
pub struct Vec3 {
    pub x: i128,
    pub y: i128,
    pub z: i128,
}

impl Vec3 {
    pub open spec fn wf(self) -> bool {
        fx_in_range(self.x as int) && fx_in_range(self.y as int) && fx_in_range(self.z as int)
    }
}

pub open spec fn spec_vadd(a: Vec3, b: Vec3) -> Vec3 {
    Vec3 {
        x: spec_fx_add(a.x as int, b.x as int) as i128,
        y: spec_fx_add(a.y as int, b.y as int) as i128,
        z: spec_fx_add(a.z as int, b.z as int) as i128,
    }
}

pub open spec fn spec_vsub(a: Vec3, b: Vec3) -> Vec3 {
    Vec3 {
        x: spec_fx_sub(a.x as int, b.x as int) as i128,
        y: spec_fx_sub(a.y as int, b.y as int) as i128,
        z: spec_fx_sub(a.z as int, b.z as int) as i128,
    }
}

pub open spec fn spec_vcross(a: Vec3, b: Vec3) -> Vec3 {
    Vec3 {
        x: spec_fx_sub(
            spec_fx_mul(a.y as int, b.z as int),
            spec_fx_mul(a.z as int, b.y as int),
        ) as i128,
        y: spec_fx_sub(
            spec_fx_mul(a.z as int, b.x as int),
            spec_fx_mul(a.x as int, b.z as int),
        ) as i128,
        z: spec_fx_sub(
            spec_fx_mul(a.x as int, b.y as int),
            spec_fx_mul(a.y as int, b.x as int),
        ) as i128,
    }
}

pub open spec fn spec_vdot(a: Vec3, b: Vec3) -> int {
    spec_fx_add(
        spec_fx_add(
            spec_fx_mul(a.x as int, b.x as int),
            spec_fx_mul(a.y as int, b.y as int),
        ),
        spec_fx_mul(a.z as int, b.z as int),
    )
}

/// Squared magnitude with full precision (scaled by `FX_ONE * FX_ONE`).
pub open spec fn spec_norm2(v: Vec3) -> int {
    (v.x as int) * (v.x as int) + (v.y as int) * (v.y as int) + (v.z as int) * (v.z as int)
}

/// Magnitude (scaled by `FX_ONE`): the integer square root of the raw
/// squared magnitude.
pub open spec fn spec_vmag(v: Vec3) -> int {
    spec_isqrt(spec_norm2(v))
}

pub open spec fn spec_vnormalize(v: Vec3) -> Vec3 {
    Vec3 {
        x: fx_clamp(tdiv((v.x as int) * (FX_ONE as int), spec_vmag(v))) as i128,
        y: fx_clamp(tdiv((v.y as int) * (FX_ONE as int), spec_vmag(v))) as i128,
        z: fx_clamp(tdiv((v.z as int) * (FX_ONE as int), spec_vmag(v))) as i128,
    }
}

pub open spec fn spec_vscale(v: Vec3, k: int) -> Vec3 {
    Vec3 {
        x: spec_fx_mul(v.x as int, k) as i128,
        y: spec_fx_mul(v.y as int, k) as i128,
        z: spec_fx_mul(v.z as int, k) as i128,
    }
}

pub open spec fn spec_vneg(v: Vec3) -> Vec3 {
    Vec3 { x: (-(v.x as int)) as i128, y: (-(v.y as int)) as i128, z: (-(v.z as int)) as i128 }
}

/// Over the integers, any nonzero vector has a squared magnitude of at
/// least one: the non-degeneracy the camera invariant asks for.
pub proof fn lemma_norm2_nonzero(v: Vec3)
    requires
        !(v.x == 0 && v.y == 0 && v.z == 0),
    ensures
        spec_norm2(v) >= 1,
{
    assert((v.x as int) * (v.x as int) + (v.y as int) * (v.y as int) + (v.z as int) * (
    v.z as int) >= 1) by (nonlinear_arith)
        requires
            !(v.x == 0 && v.y == 0 && v.z == 0),
    ;
}

proof fn lemma_norm2_bounds(v: Vec3)
    by (nonlinear_arith)
    requires
        v.wf(),
    ensures
        0 <= spec_norm2(v) < 85070591730234615865843651857942052864,  // 2^126
{
}

pub fn vadd(a: Vec3, b: Vec3) -> (r: Vec3)
    requires
        a.wf(),
        b.wf(),
    ensures
        r == spec_vadd(a, b),
        r.wf(),
{
    Vec3 { x: fx_add(a.x, b.x), y: fx_add(a.y, b.y), z: fx_add(a.z, b.z) }
}

pub fn vsub(a: Vec3, b: Vec3) -> (r: Vec3)
    requires
        a.wf(),
        b.wf(),
    ensures
        r == spec_vsub(a, b),
        r.wf(),
{
    Vec3 { x: fx_sub(a.x, b.x), y: fx_sub(a.y, b.y), z: fx_sub(a.z, b.z) }
}

pub fn vcross(a: Vec3, b: Vec3) -> (r: Vec3)
    requires
        a.wf(),
        b.wf(),
    ensures
        r == spec_vcross(a, b),
        r.wf(),
{
    Vec3 {
        x: fx_sub(fx_mul(a.y, b.z), fx_mul(a.z, b.y)),
        y: fx_sub(fx_mul(a.z, b.x), fx_mul(a.x, b.z)),
        z: fx_sub(fx_mul(a.x, b.y), fx_mul(a.y, b.x)),
    }
}

pub fn vdot(a: Vec3, b: Vec3) -> (r: i128)
    requires
        a.wf(),
        b.wf(),
    ensures
        r as int == spec_vdot(a, b),
        fx_in_range(r as int),
{
    fx_add(fx_add(fx_mul(a.x, b.x), fx_mul(a.y, b.y)), fx_mul(a.z, b.z))
}

pub fn vscale(v: Vec3, k: i128) -> (r: Vec3)
    requires
        v.wf(),
        fx_in_range(k as int),
    ensures
        r == spec_vscale(v, k as int),
        r.wf(),
{
    Vec3 { x: fx_mul(v.x, k), y: fx_mul(v.y, k), z: fx_mul(v.z, k) }
}

pub fn vneg(v: Vec3) -> (r: Vec3)
    requires
        v.wf(),
    ensures
        r == spec_vneg(v),
        r.wf(),
{
    Vec3 { x: fx_neg(v.x), y: fx_neg(v.y), z: fx_neg(v.z) }
}

/// Magnitude of `v`, scaled by `FX_ONE`.
pub fn vmag(v: Vec3) -> (r: i128)
    requires
        v.wf(),
    ensures
        r as int == spec_vmag(v),
        is_isqrt(spec_norm2(v), r as int),
{
    proof {
        lemma_norm2_bounds(v);
        crate::fixed::lemma_fx_prod_in_i128(v.x as int, v.x as int);
        crate::fixed::lemma_fx_prod_in_i128(v.y as int, v.y as int);
        crate::fixed::lemma_fx_prod_in_i128(v.z as int, v.z as int);
    }
    let m2: i128 = v.x * v.x + v.y * v.y + v.z * v.z;
    let r = isqrt(m2 as u128);
    r as i128
}

/// Normalize `v` to (fixed-point) unit length.
pub fn vnormalize(v: Vec3) -> (r: Vec3)
    requires
        v.wf(),
        spec_norm2(v) >= 1,
    ensures
        r == spec_vnormalize(v),
        r.wf(),
{
    let mag = vmag(v);
    proof {
        assert(spec_vmag(v) >= 1) by {
            if spec_vmag(v) < 1 {
                assert(is_isqrt(spec_norm2(v), spec_vmag(v)));
                assert(spec_norm2(v) < 1) by (nonlinear_arith)
                    requires
                        is_isqrt(spec_norm2(v), spec_vmag(v)),
                        spec_vmag(v) < 1,
                ;
            }
        }
        crate::fixed::lemma_fx_scale_in_i128(v.x as int);
        crate::fixed::lemma_fx_scale_in_i128(v.y as int);
        crate::fixed::lemma_fx_scale_in_i128(v.z as int);
    }
    Vec3 {
        x: fx_clamp_exec(fx_tdiv(v.x * FX_ONE, mag)),
        y: fx_clamp_exec(fx_tdiv(v.y * FX_ONE, mag)),
        z: fx_clamp_exec(fx_tdiv(v.z * FX_ONE, mag)),
    }
}

} // verus!
