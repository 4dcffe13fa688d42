use render_core::camera::{convergence_matrix, focal_length, look_at, orthographic, perspective,
    Camera, CameraKind, CameraUniform};
use render_core::fixed::{fx_add, fx_div, fx_mul, fx_sub, isqrt, FX_MAX, FX_ONE};
use render_core::vec3::{vmag, vnormalize, Vec3};

#[test]
fn focal_length_ninety_degrees_is_one() {
    // cot(45 degrees) is exactly one, and the rational approximation
    // reproduces it exactly: one fixed-point unit.
    assert_eq!(focal_length(368640), 4096);
}

#[test]
fn focal_length_forty_five_degrees() {
    // cot(22.5 degrees) is about 2.414; the approximation lands at
    // 9857/4096, about 2.406.
    assert_eq!(focal_length(184320), 9857);
}

#[test]
fn focal_length_positive_at_extremes() {
    assert!(focal_length(2) >= 1);
    assert!(focal_length(737279) >= 1);
    assert!(focal_length(2) > focal_length(368640));
}

#[test]
fn isqrt_exact_values() {
    assert_eq!(isqrt(0), 0);
    assert_eq!(isqrt(2), 1);
    assert_eq!(isqrt(16777215), 4095);
    assert_eq!(isqrt(16777216), 4096);
    assert_eq!(isqrt(67108864), 8192);
}

#[test]
fn fixed_ops_exact() {
    assert_eq!(fx_mul(8192, 2048), 4096);
    assert_eq!(fx_mul(-8192, 4096), -8192);
    assert_eq!(fx_div(8192, 4096), 8192);
    assert_eq!(fx_add(FX_MAX, FX_MAX), FX_MAX);
    assert_eq!(fx_sub(-FX_MAX, FX_MAX), -FX_MAX);
    assert_eq!(fx_mul(FX_ONE, FX_ONE), FX_ONE);
}

#[test]
fn magnitude_and_normalize_axis_vector() {
    let v = Vec3 { x: 0, y: 0, z: -8192 };
    assert_eq!(vmag(v), 8192);
    let n = vnormalize(v);
    assert_eq!((n.x, n.y, n.z), (0, 0, -4096));
}

#[test]
fn look_at_default_frame() {
    let eye = Vec3 { x: 0, y: 0, z: 8192 };
    let target = Vec3 { x: 0, y: 0, z: 0 };
    let up = Vec3 { x: 0, y: 4096, z: 0 };
    let m = look_at(eye, target, up);
    assert_eq!((m.m00, m.m01, m.m02, m.m03), (4096, 0, 0, 0));
    assert_eq!((m.m10, m.m11, m.m12, m.m13), (0, 4096, 0, 0));
    assert_eq!((m.m20, m.m21, m.m22, m.m23), (0, 0, 4096, -8192));
    assert_eq!((m.m30, m.m31, m.m32, m.m33), (0, 0, 0, 4096));
}

#[test]
fn perspective_default_entries() {
    let m = perspective(184320, 400, 400, 410, 409600);
    assert_eq!((m.m00, m.m11), (9857, 9857));
    assert_eq!((m.m22, m.m23), (-4104, -3362085));
    assert_eq!((m.m32, m.m33), (-4096, 0));
    assert_eq!((m.m01, m.m02, m.m03, m.m10, m.m12, m.m13), (0, 0, 0, 0, 0, 0));
    assert_eq!((m.m20, m.m21, m.m30, m.m31), (0, 0, 0, 0));
}

#[test]
fn convergence_matrix_entries() {
    let m = convergence_matrix();
    assert_eq!((m.m00, m.m11, m.m33), (4096, 4096, 4096));
    assert_eq!((m.m22, m.m23), (2048, 2048));
    assert_eq!((m.m01, m.m02, m.m03, m.m10, m.m12, m.m13), (0, 0, 0, 0, 0, 0));
    assert_eq!((m.m20, m.m21, m.m30, m.m31, m.m32), (0, 0, 0, 0, 0));
}

#[test]
fn view_proj_default_camera_entries() {
    let cam = Camera::new(
        CameraKind::PerspectiveLookAt,
        Vec3 { x: 0, y: 0, z: 8192 },
        Vec3 { x: 0, y: 4096, z: 0 },
        Vec3 { x: 0, y: 0, z: 0 },
        184320,
        400,
        400,
        410,
        409600,
    );
    let m = cam.build_view_proj();
    assert_eq!((m.m00, m.m11), (9857, 9857));
    assert_eq!((m.m22, m.m23), (-4100, -1672842));
    assert_eq!((m.m32, m.m33), (-4096, 8192));
    assert_eq!((m.m01, m.m02, m.m03, m.m10, m.m12, m.m13), (0, 0, 0, 0, 0, 0));
    assert_eq!((m.m20, m.m21, m.m30, m.m31), (0, 0, 0, 0));
}

#[test]
fn view_proj_tracks_aspect_ratio() {
    // A wider surface scales only the first diagonal entry.
    let cam = Camera::new(
        CameraKind::PerspectiveLookAt,
        Vec3 { x: 0, y: 0, z: 8192 },
        Vec3 { x: 0, y: 4096, z: 0 },
        Vec3 { x: 0, y: 0, z: 0 },
        184320,
        800,
        600,
        410,
        409600,
    );
    let m = cam.build_view_proj();
    assert_eq!(m.m00, 7392);
    assert_eq!(m.m11, 9857);
}

#[test]
fn blank_uniform_is_identity() {
    // A uniform not yet updated from any camera holds the identity.
    let u = CameraUniform::new();
    let cols = u.cols();
    assert_eq!(
        cols,
        vec![4096, 0, 0, 0, 0, 4096, 0, 0, 0, 0, 4096, 0, 0, 0, 0, 4096]
    );
}

#[test]
fn uniform_packs_column_major() {
    let cam = Camera::new(
        CameraKind::PerspectiveLookAt,
        Vec3 { x: 0, y: 0, z: 8192 },
        Vec3 { x: 0, y: 4096, z: 0 },
        Vec3 { x: 0, y: 0, z: 0 },
        184320,
        400,
        400,
        410,
        409600,
    );
    let mut u = CameraUniform::new();
    u.update_view_proj(&cam);
    let m = cam.build_view_proj();
    let cols = u.cols();
    assert_eq!(cols.len(), 16);
    // Column zero is the first entry of every row.
    assert_eq!(cols[0], m.m00);
    assert_eq!(cols[1], m.m10);
    assert_eq!(cols[2], m.m20);
    assert_eq!(cols[3], m.m30);
    // The translation column comes last.
    assert_eq!(cols[12], m.m03);
    assert_eq!(cols[13], m.m13);
    assert_eq!(cols[14], m.m23);
    assert_eq!(cols[15], m.m33);
}

#[test]
fn orthographic_entries() {
    let m = orthographic(800, 600, 410, 409600);
    assert_eq!(m.m00, 3072);
    assert_eq!(m.m11, 4096);
    assert_eq!((m.m22, m.m23), (-82, -4104));
    assert_eq!((m.m32, m.m33), (0, 4096));
}

#[test]
fn orthographic_camera_kind_same_entry_point() {
    let cam = Camera::new(
        CameraKind::Orthographic,
        Vec3 { x: 0, y: 0, z: 8192 },
        Vec3 { x: 0, y: 4096, z: 0 },
        Vec3 { x: 0, y: 0, z: 0 },
        184320,
        800,
        600,
        410,
        409600,
    );
    let m = cam.build_view_proj();
    // The orthographic projection scales x by 1/aspect and keeps w at one.
    assert_eq!(m.m00, 3072);
    assert_eq!((m.m32, m.m33), (0, 4096));
}

#[test]
fn perspective_floors_degenerate_aspect() {
    // A 5000x1 surface would truncate the x scale to zero; it saturates
    // at one fixed-point unit instead, keeping the projection invertible.
    let m = perspective(368640, 5000, 1, 410, 409600);
    assert_eq!(m.m00, 1);
    let wide = perspective(737279, 800, 600, 410, 409600);
    assert!(wide.m00 >= 1);
}

#[test]
fn orthographic_floors_degenerate_scales() {
    // An extreme aspect ratio floors the x scale at one unit.
    let m = orthographic(50000000, 1, 410, 409600);
    assert_eq!(m.m00, 1);
    // A depth range wider than the fixed-point grid floors the depth
    // scale at minus one unit.
    let deep = orthographic(800, 600, 1, 100000000);
    assert_eq!(deep.m22, -1);
}
