//! The camera: viewing parameters and the view-projection transform.
//!
//! All scalars are fixed-point (`FX_ONE`-scaled) values. The perspective
//! focal length `cot(fov/2)` is computed with a rational approximation of
//! the cotangent (a ratio of two quadratics in the half angle), exact over
//! the integers, positive on the whole open (0, 90) degree range, and
//! clamped to at least one fixed-point unit.

use vstd::prelude::*;
use crate::fixed::{
    fx_clamp, fx_clamp_exec, fx_clamp_pos, fx_clamp_pos_exec, fx_neg, fx_tdiv, tdiv, FX_MAX,
    FX_ONE,
};
use vstd::arithmetic::div_mod::lemma_div_non_zero;
use crate::mat4::{det4, identity, mat_mul, spec_identity, spec_mat_mul, Mat4};
use crate::vec3::{
    spec_norm2, spec_vcross, spec_vdot, spec_vnormalize, spec_vsub, vcross, vdot, vnormalize,
    vsub, Vec3,
};

verus! {

/// Largest coordinate or clip distance a camera may hold (2^48 units).
pub const CAM_MAX: i128 = 281474976710656;

/// One half of a full turn, in fixed-point degrees: the exclusive upper
/// bound of the vertical field of view.
pub const FOV_LIMIT: i128 = 737280;

/// The closed set of camera kinds, selected at construction. Every kind
/// answers the same `build_view_proj` contract; the render state never
/// special-cases the camera type.
#[derive(Clone, Copy, Debug, PartialEq, Eq, Structural)]
pub enum CameraKind {
    /// A perspective projection looking from the eye at the target.
    PerspectiveLookAt,
    /// A symmetric orthographic projection with the same viewing frame.
    Orthographic,
}

#[derive(Clone, Copy, Debug, PartialEq, Eq, Structural)]
pub struct Camera {
    /// Which projection this camera produces.
    pub kind: CameraKind,
    /// Eye position.
    pub eye: Vec3,
    /// Up vector.
    pub up: Vec3,
    /// Point the camera looks at.
    pub target: Vec3,
    /// Vertical field of view, in fixed-point degrees.
    pub fov: i128,
    /// Aspect ratio numerator: the surface width in pixels.
    pub aspect_w: u32,
    /// Aspect ratio denominator: the surface height in pixels.
    pub aspect_h: u32,
    /// Near clip distance.
    pub znear: i128,
    /// Far clip distance.
    pub zfar: i128,
}

pub open spec fn coord_in_cam_range(v: Vec3) -> bool {
    &&& -CAM_MAX <= v.x as int <= CAM_MAX
    &&& -CAM_MAX <= v.y as int <= CAM_MAX
    &&& -CAM_MAX <= v.z as int <= CAM_MAX
}

impl Camera {
    /// The camera invariant: clip planes ordered and positive, aspect
    /// positive, field of view inside (0, 180) degrees, coordinates inside
    /// the fixed-point working range, and a non-degenerate viewing frame
    /// (eye apart from target, up not parallel to the viewing direction).
    pub open spec fn wf(self) -> bool {
        &&& coord_in_cam_range(self.eye)
        &&& coord_in_cam_range(self.target)
        &&& coord_in_cam_range(self.up)
        &&& 2 <= self.fov < FOV_LIMIT
        &&& 1 <= self.aspect_w
        &&& 1 <= self.aspect_h
        &&& 1 <= self.znear < self.zfar <= CAM_MAX
        &&& spec_norm2(spec_vsub(self.target, self.eye)) >= 1
        &&& spec_norm2(spec_vcross(spec_vsub(self.target, self.eye), self.up)) >= 1
    }

    pub fn new(
        kind: CameraKind,
        eye: Vec3,
        up: Vec3,
        target: Vec3,
        fov: i128,
        aspect_w: u32,
        aspect_h: u32,
        znear: i128,
        zfar: i128,
    ) -> (r: Camera)
        requires
            (Camera { kind, eye, up, target, fov, aspect_w, aspect_h, znear, zfar }).wf(),
        ensures
            r == (Camera { kind, eye, up, target, fov, aspect_w, aspect_h, znear, zfar }),
            r.wf(),
    {
        Camera { kind, eye, up, target, fov, aspect_w, aspect_h, znear, zfar }
    }

    /// Compose convergence, projection and view into the matrix the
    /// vertex stage consumes, whichever kind this camera is.
    pub fn build_view_proj(&self) -> (m: Mat4)
        requires
            self.wf(),
        ensures
            m == spec_build_view_proj(*self),
            m.wf(),
    {
        let view = look_at(self.eye, self.target, self.up);
        let projection = match self.kind {
            CameraKind::PerspectiveLookAt => perspective(self.fov, self.aspect_w, self.aspect_h,
                self.znear, self.zfar),
            CameraKind::Orthographic => orthographic(self.aspect_w, self.aspect_h, self.znear,
                self.zfar),
        };
        let pv = mat_mul(&projection, &view);
        mat_mul(&convergence_matrix(), &pv)
    }
}

/// Focal length `cot(fov / 2)` of the perspective projection, through the
/// rational cotangent approximation, clamped into `[1, FX_MAX]`.
pub open spec fn spec_focal(fov: int) -> int {
    let h = fov / 2;
    let t1 = 135895449600 - h * h;
    let t2 = 679477248000 - 737280 * h + h * h;
    let d3 = 543581798400 + h * h;
    let q = tdiv(t1 * t2 * 4096, d3 * h * (737280 - h));
    if q < 1 {
        1
    } else if q > FX_MAX as int {
        FX_MAX as int
    } else {
        q
    }
}

pub fn focal_length(fov: i128) -> (r: i128)
    requires
        2 <= fov < FOV_LIMIT,
    ensures
        r as int == spec_focal(fov as int),
        1 <= r <= FX_MAX,
{
    let h = fx_tdiv(fov, 2);
    assert(1 <= h <= 368639);
    proof {
        assert(1 <= h * h <= 135894712321) by (nonlinear_arith)
            requires
                1 <= h <= 368639,
        ;
    }
    let hh = h * h;
    let t1 = 135895449600 - hh;
    let t2 = 679477248000 - 737280 * h + hh;
    proof {
        assert(t2 >= 543581798400) by (nonlinear_arith)
            requires
                t2 == 679477248000 - 737280 * h + h * h,
                hh == h * h,
        ;
    }
    proof {
        assert(1 <= t1 * t2 <= 135895449600 * 815372697600) by (nonlinear_arith)
            requires
                1 <= t1 <= 135895449600,
                543581798400 <= t2 <= 815372697600,
        ;
    }
    let n = t1 * t2;
    let d3 = 543581798400 + hh;
    proof {
        assert(1 <= d3 * h <= 679476510721 * 368639) by (nonlinear_arith)
            requires
                1 <= d3 <= 679476510721,
                1 <= h <= 368639,
        ;
    }
    let d1 = d3 * h;
    proof {
        assert(1 <= d1 * (737280 - h) <= 679476510721 * 368639 * 737279) by (nonlinear_arith)
            requires
                1 <= d1 <= 679476510721 * 368639,
                1 <= h <= 368639,
        ;
    }
    let d = d1 * (737280 - h);
    let q = fx_tdiv(n * 4096, d);
    if q < 1 {
        1
    } else if q > FX_MAX {
        FX_MAX
    } else {
        q
    }
}

/// The perspective projection for the camera math convention: right-handed,
/// depth mapped to [-1, 1]. The x scale saturates at one fixed-point unit,
/// as the focal length does, so no admissible aspect ratio can collapse it
/// to zero.
pub open spec fn spec_perspective(
    fov: int,
    aspect_w: int,
    aspect_h: int,
    znear: int,
    zfar: int,
) -> Mat4 {
    Mat4 {
        m00: fx_clamp_pos(tdiv(spec_focal(fov) * aspect_h, aspect_w)) as i128,
        m01: 0, m02: 0, m03: 0,
        m10: 0,
        m11: spec_focal(fov) as i128,
        m12: 0, m13: 0,
        m20: 0, m21: 0,
        m22: (-fx_clamp(tdiv((znear + zfar) * 4096, zfar - znear))) as i128,
        m23: (-fx_clamp(tdiv(zfar * znear * 8192, zfar - znear))) as i128,
        m30: 0, m31: 0,
        m32: (-4096) as i128,
        m33: 0,
    }
}

pub fn perspective(fov: i128, aspect_w: u32, aspect_h: u32, znear: i128, zfar: i128) -> (m: Mat4)
    requires
        2 <= fov < FOV_LIMIT,
        1 <= aspect_w,
        1 <= aspect_h,
        1 <= znear < zfar <= CAM_MAX,
    ensures
        m == spec_perspective(fov as int, aspect_w as int, aspect_h as int, znear as int,
            zfar as int),
        m.wf(),
{
    let f = focal_length(fov);
    proof {
        assert(1 <= f * (aspect_h as i128) <= FX_MAX * 4294967295) by (nonlinear_arith)
            requires
                1 <= f <= FX_MAX,
                1 <= aspect_h as i128 <= 4294967295,
        ;
    }
    let e00 = fx_clamp_pos_exec(fx_tdiv(f * (aspect_h as i128), aspect_w as i128));
    let zdiff = zfar - znear;
    let e22 = fx_clamp_exec(fx_tdiv((znear + zfar) * 4096, zdiff));
    proof {
        assert(1 <= zfar * znear <= CAM_MAX * CAM_MAX) by (nonlinear_arith)
            requires
                1 <= znear <= CAM_MAX,
                1 <= zfar <= CAM_MAX,
        ;
    }
    let zz = zfar * znear;
    let e23 = fx_clamp_exec(fx_tdiv(zz * 8192, zdiff));
    Mat4 {
        m00: e00,
        m01: 0, m02: 0, m03: 0,
        m10: 0,
        m11: f,
        m12: 0, m13: 0,
        m20: 0, m21: 0,
        m22: -e22,
        m23: -e23,
        m30: 0, m31: 0,
        m32: -4096,
        m33: 0,
    }
}

/// The symmetric orthographic projection: one view unit of half height,
/// the aspect ratio of half width, depth mapped linearly to [-1, 1]. The
/// x and depth scales saturate at one fixed-point unit, so no admissible
/// aspect ratio or depth range can collapse them to zero.
pub open spec fn spec_orthographic(aspect_w: int, aspect_h: int, znear: int, zfar: int) -> Mat4 {
    let a = if tdiv(aspect_w * 4096, aspect_h) < 1 {
        1
    } else {
        tdiv(aspect_w * 4096, aspect_h)
    };
    Mat4 {
        m00: fx_clamp_pos(tdiv(16777216, a)) as i128,
        m01: 0, m02: 0, m03: 0,
        m10: 0,
        m11: 4096,
        m12: 0, m13: 0,
        m20: 0, m21: 0,
        m22: (-fx_clamp_pos(tdiv(33554432, zfar - znear))) as i128,
        m23: (-fx_clamp(tdiv((znear + zfar) * 4096, zfar - znear))) as i128,
        m30: 0, m31: 0, m32: 0,
        m33: 4096,
    }
}

pub fn orthographic(aspect_w: u32, aspect_h: u32, znear: i128, zfar: i128) -> (m: Mat4)
    requires
        1 <= aspect_w,
        1 <= aspect_h,
        1 <= znear < zfar <= CAM_MAX,
    ensures
        m == spec_orthographic(aspect_w as int, aspect_h as int, znear as int, zfar as int),
        m.wf(),
{
    let raw_a = fx_tdiv((aspect_w as i128) * 4096, aspect_h as i128);
    let a = if raw_a < 1 {
        1
    } else {
        raw_a
    };
    let e00 = fx_clamp_pos_exec(fx_tdiv(16777216, a));
    let zdiff = zfar - znear;
    let e22 = fx_clamp_pos_exec(fx_tdiv(33554432, zdiff));
    let e23 = fx_clamp_exec(fx_tdiv((znear + zfar) * 4096, zdiff));
    Mat4 {
        m00: e00,
        m01: 0, m02: 0, m03: 0,
        m10: 0,
        m11: 4096,
        m12: 0, m13: 0,
        m20: 0, m21: 0,
        m22: -e22,
        m23: -e23,
        m30: 0, m31: 0, m32: 0,
        m33: 4096,
    }
}

/// The right-handed view transform: rows are the side, up and backward
/// axes of the viewing frame, with the eye translation folded in.
pub open spec fn spec_look_at(eye: Vec3, target: Vec3, up: Vec3) -> Mat4 {
    let fwd = spec_vnormalize(spec_vsub(target, eye));
    let side = spec_vnormalize(spec_vcross(spec_vsub(target, eye), up));
    let upn = spec_vcross(side, fwd);
    Mat4 {
        m00: side.x, m01: side.y, m02: side.z,
        m03: (-spec_vdot(side, eye)) as i128,
        m10: upn.x, m11: upn.y, m12: upn.z,
        m13: (-spec_vdot(upn, eye)) as i128,
        m20: (-(fwd.x as int)) as i128, m21: (-(fwd.y as int)) as i128,
        m22: (-(fwd.z as int)) as i128,
        m23: spec_vdot(fwd, eye) as i128,
        m30: 0, m31: 0, m32: 0,
        m33: FX_ONE,
    }
}

pub fn look_at(eye: Vec3, target: Vec3, up: Vec3) -> (m: Mat4)
    requires
        eye.wf(),
        target.wf(),
        up.wf(),
        spec_norm2(spec_vsub(target, eye)) >= 1,
        spec_norm2(spec_vcross(spec_vsub(target, eye), up)) >= 1,
    ensures
        m == spec_look_at(eye, target, up),
        m.wf(),
{
    let raw_fwd = vsub(target, eye);
    let fwd = vnormalize(raw_fwd);
    let side = vnormalize(vcross(raw_fwd, up));
    let upn = vcross(side, fwd);
    Mat4 {
        m00: side.x, m01: side.y, m02: side.z,
        m03: fx_neg(vdot(side, eye)),
        m10: upn.x, m11: upn.y, m12: upn.z,
        m13: fx_neg(vdot(upn, eye)),
        m20: fx_neg(fwd.x), m21: fx_neg(fwd.y), m22: fx_neg(fwd.z),
        m23: vdot(fwd, eye),
        m30: 0, m31: 0, m32: 0,
        m33: FX_ONE,
    }
}

/// The constant coordinate convergence matrix: remaps the camera math
/// convention's [-1, 1] depth range into the target API's [0, 1].
pub open spec fn spec_convergence_matrix() -> Mat4 {
    Mat4 {
        m00: FX_ONE, m01: 0, m02: 0, m03: 0,
        m10: 0, m11: FX_ONE, m12: 0, m13: 0,
        m20: 0, m21: 0, m22: 2048, m23: 2048,
        m30: 0, m31: 0, m32: 0, m33: FX_ONE,
    }
}

pub fn convergence_matrix() -> (m: Mat4)
    ensures
        m == spec_convergence_matrix(),
        m.wf(),
{
    Mat4 {
        m00: FX_ONE, m01: 0, m02: 0, m03: 0,
        m10: 0, m11: FX_ONE, m12: 0, m13: 0,
        m20: 0, m21: 0, m22: 2048, m23: 2048,
        m30: 0, m31: 0, m32: 0, m33: FX_ONE,
    }
}

/// The projection factor a camera of the given kind produces.
pub open spec fn spec_projection(cam: Camera) -> Mat4 {
    match cam.kind {
        CameraKind::PerspectiveLookAt => spec_perspective(cam.fov as int, cam.aspect_w as int,
            cam.aspect_h as int, cam.znear as int, cam.zfar as int),
        CameraKind::Orthographic => spec_orthographic(cam.aspect_w as int, cam.aspect_h as int,
            cam.znear as int, cam.zfar as int),
    }
}

/// `convergence * projection * view`, the full camera transform.
pub open spec fn spec_build_view_proj(cam: Camera) -> Mat4 {
    spec_mat_mul(
        spec_convergence_matrix(),
        spec_mat_mul(spec_projection(cam), spec_look_at(cam.eye, cam.target, cam.up)),
    )
}

/// Law: for every well-formed camera the view-projection transform is
/// finite: every entry of the composed matrix lies inside the fixed-point
/// working range.
pub proof fn lemma_build_view_proj_finite(cam: Camera)
    requires
        cam.wf(),
    ensures
        spec_build_view_proj(cam).wf(),
{
}

/// Law: for every well-formed camera the perspective factor of the
/// transform is non-singular.
pub proof fn lemma_perspective_nonsingular(cam: Camera)
    requires
        cam.wf(),
    ensures
        det4(
            spec_perspective(cam.fov as int, cam.aspect_w as int, cam.aspect_h as int,
                cam.znear as int, cam.zfar as int),
        ) != 0,
{
    let f = spec_focal(cam.fov as int);
    let aw = cam.aspect_w as int;
    let ah = cam.aspect_h as int;
    let zn = cam.znear as int;
    let zf = cam.zfar as int;
    assert(1 <= f <= FX_MAX as int);
    let e00 = fx_clamp_pos(tdiv(f * ah, aw));
    assert(e00 >= 1);
    assert(zf * zn * 8192 >= zf - zn) by (nonlinear_arith)
        requires
            1 <= zn < zf,
    ;
    lemma_div_non_zero(zf * zn * 8192, zf - zn);
    let q23 = tdiv(zf * zn * 8192, zf - zn);
    assert(q23 >= 1);
    let e23 = -fx_clamp(q23);
    assert(e23 <= -1);
    let m = spec_perspective(cam.fov as int, cam.aspect_w as int, cam.aspect_h as int,
        cam.znear as int, cam.zfar as int);
    let m00 = m.m00 as int;
    let m01 = m.m01 as int;
    let m02 = m.m02 as int;
    let m03 = m.m03 as int;
    let m10 = m.m10 as int;
    let m11 = m.m11 as int;
    let m12 = m.m12 as int;
    let m13 = m.m13 as int;
    let m20 = m.m20 as int;
    let m21 = m.m21 as int;
    let m22 = m.m22 as int;
    let m23 = m.m23 as int;
    let m30 = m.m30 as int;
    let m31 = m.m31 as int;
    let m32 = m.m32 as int;
    let m33 = m.m33 as int;
    assert(m00 == e00 && m11 == f && m23 == e23 && m32 == -4096);
    assert(det4(m) == -m30 * (m01 * (m12 * m23 - m13 * m22) - m02 * (m11 * m23 - m13 * m21)
        + m03 * (m11 * m22 - m12 * m21)) + m31 * (m00 * (m12 * m23 - m13 * m22) - m02 * (m10
        * m23 - m13 * m20) + m03 * (m10 * m22 - m12 * m20)) - m32 * (m00 * (m11 * m23 - m13
        * m21) - m01 * (m10 * m23 - m13 * m20) + m03 * (m10 * m21 - m11 * m20)) + m33 * (m00
        * (m11 * m22 - m12 * m21) - m01 * (m10 * m22 - m12 * m20) + m02 * (m10 * m21 - m11
        * m20)));
    assert(-m30 * (m01 * (m12 * m23 - m13 * m22) - m02 * (m11 * m23 - m13 * m21) + m03 * (m11
        * m22 - m12 * m21)) + m31 * (m00 * (m12 * m23 - m13 * m22) - m02 * (m10 * m23 - m13
        * m20) + m03 * (m10 * m22 - m12 * m20)) - m32 * (m00 * (m11 * m23 - m13 * m21) - m01
        * (m10 * m23 - m13 * m20) + m03 * (m10 * m21 - m11 * m20)) + m33 * (m00 * (m11 * m22
        - m12 * m21) - m01 * (m10 * m22 - m12 * m20) + m02 * (m10 * m21 - m11 * m20)) != 0)
        by (nonlinear_arith)
        requires
            m01 == 0 && m02 == 0 && m03 == 0,
            m10 == 0 && m12 == 0 && m13 == 0,
            m20 == 0 && m21 == 0,
            m30 == 0 && m31 == 0 && m33 == 0,
            m32 == -4096,
            m00 >= 1,
            m11 >= 1,
            m23 <= -1,
    ;
}

/// Law: the constant convergence factor is non-singular.
pub proof fn lemma_convergence_nonsingular()
    ensures
        det4(spec_convergence_matrix()) != 0,
{
    let m = spec_convergence_matrix();
    assert(det4(m) == 4096 * (4096 * (4096 * 2048))) by (nonlinear_arith)
        requires
            m == spec_convergence_matrix(),
            m.m00 == 4096 && m.m11 == 4096 && m.m22 == 2048 && m.m23 == 2048 && m.m33 == 4096,
            m.m01 == 0 && m.m02 == 0 && m.m03 == 0,
            m.m10 == 0 && m.m12 == 0 && m.m13 == 0,
            m.m20 == 0 && m.m21 == 0,
            m.m30 == 0 && m.m31 == 0 && m.m32 == 0,
    ;
}

/// Law: for every well-formed camera the orthographic factor of the
/// transform is non-singular.
pub proof fn lemma_orthographic_nonsingular(cam: Camera)
    requires
        cam.wf(),
    ensures
        det4(
            spec_orthographic(cam.aspect_w as int, cam.aspect_h as int, cam.znear as int,
                cam.zfar as int),
        ) != 0,
{
    let aw = cam.aspect_w as int;
    let ah = cam.aspect_h as int;
    let zn = cam.znear as int;
    let zf = cam.zfar as int;
    let e00 = fx_clamp_pos(tdiv(16777216, if tdiv(aw * 4096, ah) < 1 {
        1int
    } else {
        tdiv(aw * 4096, ah)
    }));
    assert(e00 >= 1);
    let e22 = -fx_clamp_pos(tdiv(33554432, zf - zn));
    assert(e22 <= -1);
    let m = spec_orthographic(aw, ah, zn, zf);
    let m00 = m.m00 as int;
    let m01 = m.m01 as int;
    let m02 = m.m02 as int;
    let m03 = m.m03 as int;
    let m10 = m.m10 as int;
    let m11 = m.m11 as int;
    let m12 = m.m12 as int;
    let m13 = m.m13 as int;
    let m20 = m.m20 as int;
    let m21 = m.m21 as int;
    let m22 = m.m22 as int;
    let m23 = m.m23 as int;
    let m30 = m.m30 as int;
    let m31 = m.m31 as int;
    let m32 = m.m32 as int;
    let m33 = m.m33 as int;
    assert(m00 == e00 && m11 == 4096 && m22 == e22 && m33 == 4096);
    assert(det4(m) == -m30 * (m01 * (m12 * m23 - m13 * m22) - m02 * (m11 * m23 - m13 * m21)
        + m03 * (m11 * m22 - m12 * m21)) + m31 * (m00 * (m12 * m23 - m13 * m22) - m02 * (m10
        * m23 - m13 * m20) + m03 * (m10 * m22 - m12 * m20)) - m32 * (m00 * (m11 * m23 - m13
        * m21) - m01 * (m10 * m23 - m13 * m20) + m03 * (m10 * m21 - m11 * m20)) + m33 * (m00
        * (m11 * m22 - m12 * m21) - m01 * (m10 * m22 - m12 * m20) + m02 * (m10 * m21 - m11
        * m20)));
    assert(-m30 * (m01 * (m12 * m23 - m13 * m22) - m02 * (m11 * m23 - m13 * m21) + m03 * (m11
        * m22 - m12 * m21)) + m31 * (m00 * (m12 * m23 - m13 * m22) - m02 * (m10 * m23 - m13
        * m20) + m03 * (m10 * m22 - m12 * m20)) - m32 * (m00 * (m11 * m23 - m13 * m21) - m01
        * (m10 * m23 - m13 * m20) + m03 * (m10 * m21 - m11 * m20)) + m33 * (m00 * (m11 * m22
        - m12 * m21) - m01 * (m10 * m22 - m12 * m20) + m02 * (m10 * m21 - m11 * m20)) != 0)
        by (nonlinear_arith)
        requires
            m01 == 0 && m02 == 0 && m03 == 0,
            m10 == 0 && m12 == 0 && m13 == 0,
            m20 == 0 && m21 == 0,
            m30 == 0 && m31 == 0 && m32 == 0,
            m33 == 4096,
            m00 >= 1,
            m11 >= 1,
            m22 <= -1,
    ;
}

/// The per-frame GPU copy of the view-projection transform.
#[derive(Clone, Copy, Debug, PartialEq, Eq, Structural)]
pub struct CameraUniform {
    pub view_proj: Mat4,
}

impl CameraUniform {
    pub fn new() -> (r: CameraUniform)
        ensures
            r.view_proj == spec_identity(),
            r.view_proj.wf(),
    {
        CameraUniform { view_proj: identity() }
    }

    pub fn update_view_proj(&mut self, camera: &Camera)
        requires
            camera.wf(),
        ensures
            final(self).view_proj == spec_build_view_proj(*camera),
            final(self).view_proj.wf(),
    {
        self.view_proj = camera.build_view_proj();
    }

    /// Pack the transform for upload: sixteen scalars, column-major.
    pub fn cols(&self) -> (r: Vec<i128>)
        ensures
            r@ == seq![
                self.view_proj.m00, self.view_proj.m10, self.view_proj.m20, self.view_proj.m30,
                self.view_proj.m01, self.view_proj.m11, self.view_proj.m21, self.view_proj.m31,
                self.view_proj.m02, self.view_proj.m12, self.view_proj.m22, self.view_proj.m32,
                self.view_proj.m03, self.view_proj.m13, self.view_proj.m23, self.view_proj.m33,
            ],
    {
        let mut v: Vec<i128> = Vec::new();
        v.push(self.view_proj.m00);
        v.push(self.view_proj.m10);
        v.push(self.view_proj.m20);
        v.push(self.view_proj.m30);
        v.push(self.view_proj.m01);
        v.push(self.view_proj.m11);
        v.push(self.view_proj.m21);
        v.push(self.view_proj.m31);
        v.push(self.view_proj.m02);
        v.push(self.view_proj.m12);
        v.push(self.view_proj.m22);
        v.push(self.view_proj.m32);
        v.push(self.view_proj.m03);
        v.push(self.view_proj.m13);
        v.push(self.view_proj.m23);
        v.push(self.view_proj.m33);
        proof {
            assert(v@ =~= seq![
                self.view_proj.m00, self.view_proj.m10, self.view_proj.m20, self.view_proj.m30,
                self.view_proj.m01, self.view_proj.m11, self.view_proj.m21, self.view_proj.m31,
                self.view_proj.m02, self.view_proj.m12, self.view_proj.m22, self.view_proj.m32,
                self.view_proj.m03, self.view_proj.m13, self.view_proj.m23, self.view_proj.m33,
            ]);
        }
        v
    }
}

} // verus!
