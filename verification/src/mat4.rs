//! Fixed-point 4x4 matrices, stored row-major: `mRC` is row `R`, column `C`.

use vstd::prelude::*;
use crate::fixed::{
    fx_clamp, fx_clamp_exec, fx_in_range, fx_tdiv, lemma_fx_prod_in_i128, tdiv, FX_ONE,
};

verus! {

#[derive(Clone, Copy, Debug, PartialEq, Eq, Structural)]
pub struct Mat4 {
    pub m00: i128, pub m01: i128, pub m02: i128, pub m03: i128,
    pub m10: i128, pub m11: i128, pub m12: i128, pub m13: i128,
    pub m20: i128, pub m21: i128, pub m22: i128, pub m23: i128,
    pub m30: i128, pub m31: i128, pub m32: i128, pub m33: i128,
}

impl Mat4 {
    pub open spec fn wf(self) -> bool {
        &&& fx_in_range(self.m00 as int) && fx_in_range(self.m01 as int)
        &&& fx_in_range(self.m02 as int) && fx_in_range(self.m03 as int)
        &&& fx_in_range(self.m10 as int) && fx_in_range(self.m11 as int)
        &&& fx_in_range(self.m12 as int) && fx_in_range(self.m13 as int)
        &&& fx_in_range(self.m20 as int) && fx_in_range(self.m21 as int)
        &&& fx_in_range(self.m22 as int) && fx_in_range(self.m23 as int)
        &&& fx_in_range(self.m30 as int) && fx_in_range(self.m31 as int)
        &&& fx_in_range(self.m32 as int) && fx_in_range(self.m33 as int)
    }
}

pub open spec fn spec_identity() -> Mat4 {
    Mat4 {
        m00: FX_ONE, m01: 0, m02: 0, m03: 0,
        m10: 0, m11: FX_ONE, m12: 0, m13: 0,
        m20: 0, m21: 0, m22: FX_ONE, m23: 0,
        m30: 0, m31: 0, m32: 0, m33: FX_ONE,
    }
}

/// The identity transform.
pub fn identity() -> (r: Mat4)
    ensures
        r == spec_identity(),
        r.wf(),
{
    Mat4 {
        m00: FX_ONE, m01: 0, m02: 0, m03: 0,
        m10: 0, m11: FX_ONE, m12: 0, m13: 0,
        m20: 0, m21: 0, m22: FX_ONE, m23: 0,
        m30: 0, m31: 0, m32: 0, m33: FX_ONE,
    }
}

/// One row-by-column product of the fixed-point matrix multiply.
pub open spec fn spec_dot4(
    a0: int, a1: int, a2: int, a3: int,
    b0: int, b1: int, b2: int, b3: int,
) -> int {
    fx_clamp(
        tdiv(a0 * b0, FX_ONE as int) + tdiv(a1 * b1, FX_ONE as int) + tdiv(a2 * b2, FX_ONE as int)
            + tdiv(a3 * b3, FX_ONE as int),
    )
}

fn dot4(a0: i128, a1: i128, a2: i128, a3: i128, b0: i128, b1: i128, b2: i128, b3: i128) -> (r:
    i128)
    requires
        fx_in_range(a0 as int), fx_in_range(a1 as int),
        fx_in_range(a2 as int), fx_in_range(a3 as int),
        fx_in_range(b0 as int), fx_in_range(b1 as int),
        fx_in_range(b2 as int), fx_in_range(b3 as int),
    ensures
        r as int == spec_dot4(a0 as int, a1 as int, a2 as int, a3 as int, b0 as int, b1 as int,
            b2 as int, b3 as int),
        fx_in_range(r as int),
{
    proof {
        lemma_fx_prod_in_i128(a0 as int, b0 as int);
        lemma_fx_prod_in_i128(a1 as int, b1 as int);
        lemma_fx_prod_in_i128(a2 as int, b2 as int);
        lemma_fx_prod_in_i128(a3 as int, b3 as int);
    }
    let t0 = fx_tdiv(a0 * b0, FX_ONE);
    let t1 = fx_tdiv(a1 * b1, FX_ONE);
    let t2 = fx_tdiv(a2 * b2, FX_ONE);
    let t3 = fx_tdiv(a3 * b3, FX_ONE);
    fx_clamp_exec(t0 + t1 + t2 + t3)
}

pub open spec fn spec_mat_mul(a: Mat4, b: Mat4) -> Mat4 {
    Mat4 {
        m00: spec_dot4(a.m00 as int, a.m01 as int, a.m02 as int, a.m03 as int, b.m00 as int,
            b.m10 as int, b.m20 as int, b.m30 as int) as i128,
        m01: spec_dot4(a.m00 as int, a.m01 as int, a.m02 as int, a.m03 as int, b.m01 as int,
            b.m11 as int, b.m21 as int, b.m31 as int) as i128,
        m02: spec_dot4(a.m00 as int, a.m01 as int, a.m02 as int, a.m03 as int, b.m02 as int,
            b.m12 as int, b.m22 as int, b.m32 as int) as i128,
        m03: spec_dot4(a.m00 as int, a.m01 as int, a.m02 as int, a.m03 as int, b.m03 as int,
            b.m13 as int, b.m23 as int, b.m33 as int) as i128,
        m10: spec_dot4(a.m10 as int, a.m11 as int, a.m12 as int, a.m13 as int, b.m00 as int,
            b.m10 as int, b.m20 as int, b.m30 as int) as i128,
        m11: spec_dot4(a.m10 as int, a.m11 as int, a.m12 as int, a.m13 as int, b.m01 as int,
            b.m11 as int, b.m21 as int, b.m31 as int) as i128,
        m12: spec_dot4(a.m10 as int, a.m11 as int, a.m12 as int, a.m13 as int, b.m02 as int,
            b.m12 as int, b.m22 as int, b.m32 as int) as i128,
        m13: spec_dot4(a.m10 as int, a.m11 as int, a.m12 as int, a.m13 as int, b.m03 as int,
            b.m13 as int, b.m23 as int, b.m33 as int) as i128,
        m20: spec_dot4(a.m20 as int, a.m21 as int, a.m22 as int, a.m23 as int, b.m00 as int,
            b.m10 as int, b.m20 as int, b.m30 as int) as i128,
        m21: spec_dot4(a.m20 as int, a.m21 as int, a.m22 as int, a.m23 as int, b.m01 as int,
            b.m11 as int, b.m21 as int, b.m31 as int) as i128,
        m22: spec_dot4(a.m20 as int, a.m21 as int, a.m22 as int, a.m23 as int, b.m02 as int,
            b.m12 as int, b.m22 as int, b.m32 as int) as i128,
        m23: spec_dot4(a.m20 as int, a.m21 as int, a.m22 as int, a.m23 as int, b.m03 as int,
            b.m13 as int, b.m23 as int, b.m33 as int) as i128,
        m30: spec_dot4(a.m30 as int, a.m31 as int, a.m32 as int, a.m33 as int, b.m00 as int,
            b.m10 as int, b.m20 as int, b.m30 as int) as i128,
        m31: spec_dot4(a.m30 as int, a.m31 as int, a.m32 as int, a.m33 as int, b.m01 as int,
            b.m11 as int, b.m21 as int, b.m31 as int) as i128,
        m32: spec_dot4(a.m30 as int, a.m31 as int, a.m32 as int, a.m33 as int, b.m02 as int,
            b.m12 as int, b.m22 as int, b.m32 as int) as i128,
        m33: spec_dot4(a.m30 as int, a.m31 as int, a.m32 as int, a.m33 as int, b.m03 as int,
            b.m13 as int, b.m23 as int, b.m33 as int) as i128,
    }
}

/// Fixed-point matrix product `a * b`.
pub fn mat_mul(a: &Mat4, b: &Mat4) -> (r: Mat4)
    requires
        a.wf(),
        b.wf(),
    ensures
        r == spec_mat_mul(*a, *b),
        r.wf(),
{
    Mat4 {
        m00: dot4(a.m00, a.m01, a.m02, a.m03, b.m00, b.m10, b.m20, b.m30),
        m01: dot4(a.m00, a.m01, a.m02, a.m03, b.m01, b.m11, b.m21, b.m31),
        m02: dot4(a.m00, a.m01, a.m02, a.m03, b.m02, b.m12, b.m22, b.m32),
        m03: dot4(a.m00, a.m01, a.m02, a.m03, b.m03, b.m13, b.m23, b.m33),
        m10: dot4(a.m10, a.m11, a.m12, a.m13, b.m00, b.m10, b.m20, b.m30),
        m11: dot4(a.m10, a.m11, a.m12, a.m13, b.m01, b.m11, b.m21, b.m31),
        m12: dot4(a.m10, a.m11, a.m12, a.m13, b.m02, b.m12, b.m22, b.m32),
        m13: dot4(a.m10, a.m11, a.m12, a.m13, b.m03, b.m13, b.m23, b.m33),
        m20: dot4(a.m20, a.m21, a.m22, a.m23, b.m00, b.m10, b.m20, b.m30),
        m21: dot4(a.m20, a.m21, a.m22, a.m23, b.m01, b.m11, b.m21, b.m31),
        m22: dot4(a.m20, a.m21, a.m22, a.m23, b.m02, b.m12, b.m22, b.m32),
        m23: dot4(a.m20, a.m21, a.m22, a.m23, b.m03, b.m13, b.m23, b.m33),
        m30: dot4(a.m30, a.m31, a.m32, a.m33, b.m00, b.m10, b.m20, b.m30),
        m31: dot4(a.m30, a.m31, a.m32, a.m33, b.m01, b.m11, b.m21, b.m31),
        m32: dot4(a.m30, a.m31, a.m32, a.m33, b.m02, b.m12, b.m22, b.m32),
        m33: dot4(a.m30, a.m31, a.m32, a.m33, b.m03, b.m13, b.m23, b.m33),
    }
}

/// Determinant of a 3x3 block given by its nine entries.
pub open spec fn det3(
    a: int, b: int, c: int,
    d: int, e: int, f: int,
    g: int, h: int, i: int,
) -> int {
    a * (e * i - f * h) - b * (d * i - f * g) + c * (d * h - e * g)
}

/// Determinant of a fixed-point matrix, by cofactor expansion along row 3.
/// A nonzero determinant means the transform is non-singular.
pub open spec fn det4(m: Mat4) -> int {
    -(m.m30 as int) * det3(
        m.m01 as int, m.m02 as int, m.m03 as int,
        m.m11 as int, m.m12 as int, m.m13 as int,
        m.m21 as int, m.m22 as int, m.m23 as int,
    ) + (m.m31 as int) * det3(
        m.m00 as int, m.m02 as int, m.m03 as int,
        m.m10 as int, m.m12 as int, m.m13 as int,
        m.m20 as int, m.m22 as int, m.m23 as int,
    ) - (m.m32 as int) * det3(
        m.m00 as int, m.m01 as int, m.m03 as int,
        m.m10 as int, m.m11 as int, m.m13 as int,
        m.m20 as int, m.m21 as int, m.m23 as int,
    ) + (m.m33 as int) * det3(
        m.m00 as int, m.m01 as int, m.m02 as int,
        m.m10 as int, m.m11 as int, m.m12 as int,
        m.m20 as int, m.m21 as int, m.m22 as int,
    )
}

} // verus!
