use render_core::input::{InputEvent, Key};
use render_core::state::{
    handle_render_error, AcquireOutcome, RenderAction, RenderError, State, SurfaceSize,
};
use render_core::vertex::{RenderShape, TextureLoad};

#[test]
fn initial_state_defaults() {
    let s = State::new(400, 400);
    assert_eq!(s.get_size(), SurfaceSize { width: 400, height: 400 });
    assert_eq!(s.clear_color.r.num, 0);
    assert_eq!(s.clear_color.a.num, 1);
    assert_eq!(s.clear_color.a.den, 1);
    assert_eq!(s.texture_load, TextureLoad::TREE);
    assert_eq!(s.shape, RenderShape::SQUARE);
    assert_eq!(s.camera.aspect_w, 400);
    assert_eq!(s.camera.aspect_h, 400);
    assert_eq!(s.controller.speed, 410);
    // The uniform is a pure projection of the camera, from construction on.
    assert_eq!(s.camera_uniform.view_proj, s.camera.build_view_proj());
}

#[test]
fn resize_stores_and_reconfigures() {
    let mut s = State::new(400, 400);
    let reconfigure = s.resize(SurfaceSize { width: 800, height: 600 });
    assert!(reconfigure);
    assert_eq!(s.get_size(), SurfaceSize { width: 800, height: 600 });
    assert_eq!(s.camera.aspect_w, 800);
    assert_eq!(s.camera.aspect_h, 600);
}

#[test]
fn resize_identical_extent_is_idempotent() {
    let mut s = State::new(400, 400);
    assert!(s.resize(SurfaceSize { width: 800, height: 600 }));
    let before = s;
    let reconfigure = s.resize(SurfaceSize { width: 800, height: 600 });
    assert!(!reconfigure);
    assert_eq!(s, before);
}

#[test]
fn resize_zero_width_is_noop() {
    let mut s = State::new(400, 400);
    let before = s;
    assert!(!s.resize(SurfaceSize { width: 0, height: 600 }));
    assert_eq!(s, before);
}

#[test]
fn resize_zero_height_is_noop() {
    let mut s = State::new(400, 400);
    let before = s;
    assert!(!s.resize(SurfaceSize { width: 800, height: 0 }));
    assert_eq!(s, before);
}

#[test]
fn toggle_flips_selection() {
    let mut s = State::new(400, 400);
    let consumed = s.input(&InputEvent::KeyPressed { key: Key::Toggle });
    assert!(!consumed);
    assert_eq!(s.texture_load, TextureLoad::DIRT);
}

#[test]
fn toggle_twice_returns_original_state() {
    let mut s = State::new(400, 400);
    let before = s;
    s.input(&InputEvent::KeyPressed { key: Key::Toggle });
    s.input(&InputEvent::KeyPressed { key: Key::Toggle });
    assert_eq!(s, before);
}

#[test]
fn pointer_move_recolors_background() {
    let mut s = State::new(400, 400);
    assert!(s.resize(SurfaceSize { width: 800, height: 600 }));
    let consumed = s.input(&InputEvent::PointerMoved { x: 200, y: 450 });
    assert!(consumed);
    assert_eq!((s.clear_color.r.num, s.clear_color.r.den), (200, 800));
    assert_eq!((s.clear_color.g.num, s.clear_color.g.den), (450, 600));
    assert_eq!((s.clear_color.b.num, s.clear_color.b.den), (1, 1));
    assert_eq!((s.clear_color.a.num, s.clear_color.a.den), (1, 1));
    assert_eq!(s.clear_color.r.num as f64 / s.clear_color.r.den as f64, 0.25);
    assert_eq!(s.clear_color.g.num as f64 / s.clear_color.g.den as f64, 0.75);
}

#[test]
fn only_pointer_motion_is_consumed() {
    let mut s = State::new(400, 400);
    assert!(s.input(&InputEvent::PointerMoved { x: 10, y: 10 }));
    assert!(!s.input(&InputEvent::KeyPressed { key: Key::Toggle }));
    assert!(!s.input(&InputEvent::KeyPressed { key: Key::Forward }));
    assert!(!s.input(&InputEvent::KeyReleased { key: Key::Forward }));
    assert!(!s.input(&InputEvent::KeyPressed { key: Key::Other }));
    assert!(!s.input(&InputEvent::Other));
}

#[test]
fn movement_keys_reach_the_controller() {
    let mut s = State::new(400, 400);
    s.input(&InputEvent::KeyPressed { key: Key::Forward });
    assert!(s.controller.forward_pressed);
    s.input(&InputEvent::KeyReleased { key: Key::Forward });
    assert!(!s.controller.forward_pressed);
    s.input(&InputEvent::KeyPressed { key: Key::Left });
    assert!(s.controller.left_pressed);
}

#[test]
fn update_moves_camera_forward() {
    let mut s = State::new(400, 400);
    s.input(&InputEvent::KeyPressed { key: Key::Forward });
    s.update();
    // One tick along the normalized forward axis at speed 410/4096.
    assert_eq!((s.camera.eye.x, s.camera.eye.y, s.camera.eye.z), (0, 0, 7782));
    assert_eq!((s.camera.target.x, s.camera.target.y, s.camera.target.z), (0, 0, -410));
}

#[test]
fn update_strafes_right() {
    let mut s = State::new(400, 400);
    s.input(&InputEvent::KeyPressed { key: Key::Right });
    s.update();
    assert_eq!((s.camera.eye.x, s.camera.eye.y, s.camera.eye.z), (410, 0, 8192));
    assert_eq!((s.camera.target.x, s.camera.target.y, s.camera.target.z), (410, 0, 0));
}

#[test]
fn update_is_deterministic() {
    let run = || {
        let mut s = State::new(400, 400);
        s.input(&InputEvent::KeyPressed { key: Key::Forward });
        s.update();
        s.input(&InputEvent::KeyPressed { key: Key::Right });
        s.update();
        s.input(&InputEvent::KeyReleased { key: Key::Forward });
        s.update();
        s
    };
    let a = run();
    let b = run();
    assert_eq!(a, b);
    assert_eq!(a.camera_uniform.cols(), b.camera_uniform.cols());
}

#[test]
fn update_rebuilds_uniform_from_camera() {
    let mut s = State::new(400, 400);
    s.update();
    let expected = s.camera.build_view_proj();
    assert_eq!(s.camera_uniform.view_proj, expected);
}

#[test]
fn render_returns_full_draw_plan() {
    let mut s = State::new(400, 400);
    s.update();
    let plan = s.render(AcquireOutcome::Acquired).unwrap();
    assert_eq!(plan.clear_color, s.clear_color);
    assert_eq!(plan.texture, TextureLoad::TREE);
    assert_eq!(plan.shape, RenderShape::SQUARE);
    assert_eq!(plan.index_count, 6);
}

#[test]
fn render_classifies_acquisition_failures() {
    let s = State::new(400, 400);
    assert_eq!(s.render(AcquireOutcome::Lost), Err(RenderError::Lost));
    assert_eq!(s.render(AcquireOutcome::Outdated), Err(RenderError::Outdated));
    assert_eq!(s.render(AcquireOutcome::Timeout), Err(RenderError::Timeout));
    assert_eq!(s.render(AcquireOutcome::OutOfMemory), Err(RenderError::OutOfMemory));
}

#[test]
fn render_error_policy() {
    assert_eq!(handle_render_error(&RenderError::Lost), RenderAction::Reconfigure);
    assert_eq!(handle_render_error(&RenderError::Outdated), RenderAction::Reconfigure);
    assert_eq!(handle_render_error(&RenderError::Timeout), RenderAction::SkipFrame);
    assert_eq!(handle_render_error(&RenderError::OutOfMemory), RenderAction::Exit);
}

#[test]
fn full_frame_sequence() {
    // Initialize at 400x400, resize to 800x600, pointer at (400, 300),
    // update, render: success, and the clear color is (0.5, 0.5, 1.0, 1.0).
    let mut s = State::new(400, 400);
    assert!(s.resize(SurfaceSize { width: 800, height: 600 }));
    assert!(s.input(&InputEvent::PointerMoved { x: 400, y: 300 }));
    s.update();
    let plan = s.render(AcquireOutcome::Acquired).unwrap();
    let c = plan.clear_color;
    assert_eq!(c.r.num as f64 / c.r.den as f64, 0.5);
    assert_eq!(c.g.num as f64 / c.g.den as f64, 0.5);
    assert_eq!(c.b.num as f64 / c.b.den as f64, 1.0);
    assert_eq!(c.a.num as f64 / c.a.den as f64, 1.0);
    assert_eq!(plan.texture, TextureLoad::TREE);
    assert_eq!(plan.index_count, 6);
}

#[test]
fn geometry_tables() {
    let sq_idx = RenderShape::SQUARE.indices();
    assert_eq!(sq_idx, vec![1, 0, 3, 3, 2, 1]);
    let oct_idx = RenderShape::OCTAGON.indices();
    assert_eq!(
        oct_idx,
        vec![0, 1, 2, 0, 3, 1, 0, 4, 3, 0, 5, 4, 6, 5, 0, 7, 6, 0, 7, 0, 2]
    );
    let sq = RenderShape::SQUARE.vertices();
    assert_eq!(sq.len(), 4);
    assert_eq!((sq[0].px, sq[0].py, sq[0].pz), (-3277, 3277, 0));
    assert_eq!((sq[0].tu, sq[0].tv), (0, 4096));
    let oct = RenderShape::OCTAGON.vertices();
    assert_eq!(oct.len(), 9);
    assert_eq!((oct[2].px, oct[2].py), (0, -4096));
}

#[test]
fn index_count_matches_tables() {
    assert_eq!(RenderShape::SQUARE.index_count() as usize, RenderShape::SQUARE.indices().len());
    assert_eq!(
        RenderShape::OCTAGON.index_count() as usize,
        RenderShape::OCTAGON.indices().len()
    );
}

#[test]
fn texture_toggle_is_a_two_cycle() {
    assert_eq!(TextureLoad::TREE.toggled(), TextureLoad::DIRT);
    assert_eq!(TextureLoad::DIRT.toggled(), TextureLoad::TREE);
    assert_eq!(TextureLoad::TREE.toggled().toggled(), TextureLoad::TREE);
}

#[test]
fn focus_loss_clears_held_keys() {
    let mut s = State::new(400, 400);
    s.input(&InputEvent::KeyPressed { key: Key::Forward });
    s.input(&InputEvent::KeyPressed { key: Key::Left });
    assert!(s.controller.forward_pressed);
    assert!(s.controller.left_pressed);
    assert!(!s.input(&InputEvent::FocusLost));
    assert!(!s.controller.forward_pressed);
    assert!(!s.controller.backward_pressed);
    assert!(!s.controller.left_pressed);
    assert!(!s.controller.right_pressed);
    let before = s;
    s.update();
    // With no held keys the tick leaves the camera in place.
    assert_eq!(s.camera, before.camera);
}
