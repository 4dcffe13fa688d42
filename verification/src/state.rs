//! The render state: surface size, clear color, active selection, camera
//! and controller, and the per-frame decisions of the update/render loop.
//!
//! The GPU itself (device, queue, surface, pipeline, buffers) lives with
//! the host; this state machine decides what the host carries out: when to
//! reconfigure the surface, what to clear with, which bind group and index
//! range one frame draws, and how to recover from an acquisition failure.

use vstd::prelude::*;
use crate::camera::{spec_build_view_proj, Camera, CameraKind, CameraUniform};
use crate::controller::{spec_apply, spec_process_input, CameraController};
use crate::input::{InputEvent, Key};
use crate::vertex::{RenderShape, TextureLoad};
use crate::vec3::Vec3;

verus! {

/// A surface extent in physical pixels.
#[derive(Clone, Copy, Debug, PartialEq, Eq, Structural)]
pub struct SurfaceSize {
    pub width: u32,
    pub height: u32,
}

/// One color channel as an exact ratio `num / den`.
#[derive(Clone, Copy, Debug, PartialEq, Eq, Structural)]
pub struct ColorChannel {
    pub num: u32,
    pub den: u32,
}

/// The background clear color, kept as exact ratios.
#[derive(Clone, Copy, Debug, PartialEq, Eq, Structural)]
pub struct ClearColor {
    pub r: ColorChannel,
    pub g: ColorChannel,
    pub b: ColorChannel,
    pub a: ColorChannel,
}

pub open spec fn spec_channel_one() -> ColorChannel {
    ColorChannel { num: 1, den: 1 }
}

pub open spec fn spec_black() -> ClearColor {
    ClearColor {
        r: ColorChannel { num: 0, den: 1 },
        g: ColorChannel { num: 0, den: 1 },
        b: ColorChannel { num: 0, den: 1 },
        a: spec_channel_one(),
    }
}

impl ClearColor {
    pub open spec fn wf(self) -> bool {
        self.r.den >= 1 && self.g.den >= 1 && self.b.den >= 1 && self.a.den >= 1
    }
}

/// What the host's acquisition of the next presentable image came back
/// with.
#[derive(Clone, Copy, Debug, PartialEq, Eq, Structural)]
pub enum AcquireOutcome {
    /// An image is ready to draw into.
    Acquired,
    /// The surface was lost and must be reconfigured.
    Lost,
    /// The surface no longer matches the window and must be reconfigured.
    Outdated,
    /// Acquisition timed out this frame.
    Timeout,
    /// The device is out of memory.
    OutOfMemory,
}

/// Why a frame could not be rendered.
#[derive(Clone, Copy, Debug, PartialEq, Eq, Structural)]
pub enum RenderError {
    Lost,
    Outdated,
    Timeout,
    OutOfMemory,
}

/// What the host must do after a failed frame.
#[derive(Clone, Copy, Debug, PartialEq, Eq, Structural)]
pub enum RenderAction {
    /// Reconfigure the surface with the last known size, retry next frame.
    Reconfigure,
    /// Skip this frame; the next frame retries normally.
    SkipFrame,
    /// Terminate: no safe continuation is possible.
    Exit,
}

/// Everything one successful frame draws: the recorded render pass clears
/// to `clear_color`, binds the bind group of `texture`, and issues one
/// indexed draw over the first `index_count` indices of `shape`.
#[derive(Clone, Copy, Debug, PartialEq, Eq, Structural)]
pub struct DrawPlan {
    pub clear_color: ClearColor,
    pub texture: TextureLoad,
    pub shape: RenderShape,
    pub index_count: u32,
}

#[derive(Clone, Copy, Debug, PartialEq, Eq, Structural)]
pub struct State {
    pub size: SurfaceSize,
    pub clear_color: ClearColor,
    pub texture_load: TextureLoad,
    pub shape: RenderShape,
    pub camera: Camera,
    pub camera_uniform: CameraUniform,
    pub controller: CameraController,
}

/// The freshly initialized state at a given surface size: black clear
/// color, tree texture, square mesh, the default camera two units back
/// from the origin, and the uniform already holding that camera's
/// transform — the uniform has no identity of its own, it is a projection
/// of the camera from construction onward.
pub open spec fn spec_initial_state(width: u32, height: u32) -> State {
    let camera = Camera {
        kind: CameraKind::PerspectiveLookAt,
        eye: Vec3 { x: 0, y: 0, z: 8192 },
        up: Vec3 { x: 0, y: 4096, z: 0 },
        target: Vec3 { x: 0, y: 0, z: 0 },
        fov: 184320,
        aspect_w: width,
        aspect_h: height,
        znear: 410,
        zfar: 409600,
    };
    State {
        size: SurfaceSize { width, height },
        clear_color: spec_black(),
        texture_load: TextureLoad::TREE,
        shape: RenderShape::SQUARE,
        camera,
        camera_uniform: CameraUniform { view_proj: spec_build_view_proj(camera) },
        controller: CameraController {
            speed: 410,
            forward_pressed: false,
            backward_pressed: false,
            left_pressed: false,
            right_pressed: false,
        },
    }
}

/// Resizing to a zero-area extent is a no-op; resizing to the current
/// extent leaves the state unchanged and asks for no reconfiguration;
/// anything else stores the extent, refreshes the camera's aspect ratio,
/// and asks the host to reconfigure the surface.
pub open spec fn spec_resize(s: State, new_size: SurfaceSize) -> (State, bool) {
    if new_size.width == 0 || new_size.height == 0 {
        (s, false)
    } else if new_size.width == s.size.width && new_size.height == s.size.height {
        (s, false)
    } else {
        (
            State {
                size: new_size,
                camera: Camera {
                    aspect_w: new_size.width,
                    aspect_h: new_size.height,
                    ..s.camera
                },
                ..s
            },
            true,
        )
    }
}

/// Pointer motion recolors the background from the normalized pointer
/// position and is the only consumed event; a toggle key press flips the
/// active texture; everything else only feeds the camera controller.
pub open spec fn spec_input(s: State, e: InputEvent) -> (State, bool) {
    match e {
        InputEvent::PointerMoved { x, y } => (
            State {
                clear_color: ClearColor {
                    r: ColorChannel { num: x, den: s.size.width },
                    g: ColorChannel { num: y, den: s.size.height },
                    b: spec_channel_one(),
                    a: spec_channel_one(),
                },
                ..s
            },
            true,
        ),
        _ => {
            let toggled = if e == (InputEvent::KeyPressed { key: Key::Toggle }) {
                State { texture_load: s.texture_load.spec_toggled(), ..s }
            } else {
                s
            };
            (
                State {
                    controller: spec_process_input(toggled.controller, e).0,
                    ..toggled
                },
                false,
            )
        },
    }
}

/// The per-frame update: one controller tick over the camera, then the
/// uniform rebuilt from the camera.
pub open spec fn spec_update(s: State) -> State {
    let cam = spec_apply(s.controller, s.camera);
    State {
        camera: cam,
        camera_uniform: CameraUniform { view_proj: spec_build_view_proj(cam) },
        ..s
    }
}

/// Classification of a failed acquisition, per the error taxonomy.
pub open spec fn spec_render(s: State, acquired: AcquireOutcome) -> Result<DrawPlan,
    RenderError> {
    match acquired {
        AcquireOutcome::Acquired => Ok(
            DrawPlan {
                clear_color: s.clear_color,
                texture: s.texture_load,
                shape: s.shape,
                index_count: s.shape.spec_indices().len() as u32,
            },
        ),
        AcquireOutcome::Lost => Err(RenderError::Lost),
        AcquireOutcome::Outdated => Err(RenderError::Outdated),
        AcquireOutcome::Timeout => Err(RenderError::Timeout),
        AcquireOutcome::OutOfMemory => Err(RenderError::OutOfMemory),
    }
}

impl State {
    pub open spec fn wf(self) -> bool {
        &&& self.size.width >= 1
        &&& self.size.height >= 1
        &&& self.camera.wf()
        &&& self.camera.aspect_w == self.size.width
        &&& self.camera.aspect_h == self.size.height
        &&& self.controller.wf()
        &&& self.clear_color.wf()
    }

    /// Construct the core state for a surface of the given initial size.
    /// The host performs device acquisition and resource upload around
    /// this call; a zero initial extent is a startup precondition failure.
    pub fn new(width: u32, height: u32) -> (r: State)
        requires
            width >= 1,
            height >= 1,
        ensures
            r == spec_initial_state(width, height),
            r.wf(),
    {
        let camera = Camera {
            kind: CameraKind::PerspectiveLookAt,
            eye: Vec3 { x: 0, y: 0, z: 8192 },
            up: Vec3 { x: 0, y: 4096, z: 0 },
            target: Vec3 { x: 0, y: 0, z: 0 },
            fov: 184320,
            aspect_w: width,
            aspect_h: height,
            znear: 410,
            zfar: 409600,
        };
        proof {
            let fwd = crate::vec3::spec_vsub(camera.target, camera.eye);
            assert(fwd == (Vec3 { x: 0, y: 0, z: -8192i128 }));
            crate::vec3::lemma_norm2_nonzero(fwd);
            let side = crate::vec3::spec_vcross(fwd, camera.up);
            assert(side == (Vec3 { x: 8192i128, y: 0, z: 0 }));
            crate::vec3::lemma_norm2_nonzero(side);
        }
        let mut camera_uniform = CameraUniform::new();
        camera_uniform.update_view_proj(&camera);
        State {
            size: SurfaceSize { width, height },
            clear_color: ClearColor {
                r: ColorChannel { num: 0, den: 1 },
                g: ColorChannel { num: 0, den: 1 },
                b: ColorChannel { num: 0, den: 1 },
                a: ColorChannel { num: 1, den: 1 },
            },
            texture_load: TextureLoad::TREE,
            shape: RenderShape::SQUARE,
            camera,
            camera_uniform,
            controller: CameraController::new(410),
        }
    }

    /// Store a new surface extent; returns whether the host must
    /// reconfigure the surface.
    pub fn resize(&mut self, new_size: SurfaceSize) -> (reconfigure: bool)
        requires
            old(self).wf(),
        ensures
            (*final(self), reconfigure) == spec_resize(*old(self), new_size),
            final(self).wf(),
    {
        if new_size.width == 0 || new_size.height == 0 {
            false
        } else if new_size.width == self.size.width && new_size.height == self.size.height {
            false
        } else {
            self.size = new_size;
            self.camera.aspect_w = new_size.width;
            self.camera.aspect_h = new_size.height;
            true
        }
    }

    /// Dispatch one window event; returns whether the event was consumed
    /// (only pointer motion is).
    pub fn input(&mut self, event: &InputEvent) -> (consumed: bool)
        requires
            old(self).wf(),
        ensures
            (*final(self), consumed) == spec_input(*old(self), *event),
            final(self).wf(),
    {
        match *event {
            InputEvent::PointerMoved { x, y } => {
                self.clear_color = ClearColor {
                    r: ColorChannel { num: x, den: self.size.width },
                    g: ColorChannel { num: y, den: self.size.height },
                    b: ColorChannel { num: 1, den: 1 },
                    a: ColorChannel { num: 1, den: 1 },
                };
                true
            },
            _ => {
                if *event == (InputEvent::KeyPressed { key: Key::Toggle }) {
                    self.texture_load = self.texture_load.toggled();
                }
                self.controller.process_input(event);
                false
            },
        }
    }

    /// The per-frame update tick. Must run before `render` in the same
    /// frame; the host then writes the packed uniform into the GPU buffer
    /// at offset zero.
    pub fn update(&mut self)
        requires
            old(self).wf(),
        ensures
            *final(self) == spec_update(*old(self)),
            final(self).wf(),
    {
        self.controller.apply(&mut self.camera);
        self.camera_uniform.update_view_proj(&self.camera);
    }

    /// Decide one frame from the host's acquisition outcome: either the
    /// full draw plan for the pass, or the classified error.
    pub fn render(&self, acquired: AcquireOutcome) -> (r: Result<DrawPlan, RenderError>)
        requires
            self.wf(),
        ensures
            r == spec_render(*self, acquired),
    {
        match acquired {
            AcquireOutcome::Acquired => Ok(
                DrawPlan {
                    clear_color: self.clear_color,
                    texture: self.texture_load,
                    shape: self.shape,
                    index_count: self.shape.index_count(),
                },
            ),
            AcquireOutcome::Lost => Err(RenderError::Lost),
            AcquireOutcome::Outdated => Err(RenderError::Outdated),
            AcquireOutcome::Timeout => Err(RenderError::Timeout),
            AcquireOutcome::OutOfMemory => Err(RenderError::OutOfMemory),
        }
    }

    pub fn get_size(&self) -> (r: SurfaceSize)
        ensures
            r == self.size,
    {
        self.size
    }
}

/// Recovery policy after a failed frame: a lost or outdated surface is
/// reconfigured with the last known size; a timeout skips the frame; an
/// out-of-memory device terminates the process.
pub fn handle_render_error(err: &RenderError) -> (a: RenderAction)
    ensures
        a == spec_handle_render_error(*err),
{
    match err {
        RenderError::Lost => RenderAction::Reconfigure,
        RenderError::Outdated => RenderAction::Reconfigure,
        RenderError::Timeout => RenderAction::SkipFrame,
        RenderError::OutOfMemory => RenderAction::Exit,
    }
}

pub open spec fn spec_handle_render_error(err: RenderError) -> RenderAction {
    match err {
        RenderError::Lost => RenderAction::Reconfigure,
        RenderError::Outdated => RenderAction::Reconfigure,
        RenderError::Timeout => RenderAction::SkipFrame,
        RenderError::OutOfMemory => RenderAction::Exit,
    }
}

/// Law: resize is idempotent. The second of two consecutive resizes with
/// an identical extent leaves the state exactly as the first left it and
/// asks for no further reconfiguration.
pub proof fn lemma_resize_idempotent(s: State, new_size: SurfaceSize)
    ensures
        spec_resize(spec_resize(s, new_size).0, new_size).0 == spec_resize(s, new_size).0,
        spec_resize(spec_resize(s, new_size).0, new_size).1 == false,
{
}

/// Law: a resize to a zero-area extent never mutates the stored state and
/// never asks for a reconfiguration.
pub proof fn lemma_resize_zero_noop(s: State, new_size: SurfaceSize)
    requires
        new_size.width == 0 || new_size.height == 0,
    ensures
        spec_resize(s, new_size) == (s, false),
{
}

/// Law: pointer-move mapping. For a pointer at (x, y) on a surface of
/// size (W, H), the clear color becomes exactly the ratios
/// (x/W, y/H, 1, 1), and nothing else of the state moves.
pub proof fn lemma_pointer_color_mapping(s: State, x: u32, y: u32)
    ensures
        ({
            let after = spec_input(s, InputEvent::PointerMoved { x, y }).0;
            &&& after.clear_color.r == (ColorChannel { num: x, den: s.size.width })
            &&& after.clear_color.g == (ColorChannel { num: y, den: s.size.height })
            &&& after.clear_color.b == spec_channel_one()
            &&& after.clear_color.a == spec_channel_one()
            &&& after == (State { clear_color: after.clear_color, ..s })
        }),
{
}

/// Law: exactly one event is consumed. Event dispatch reports pointer
/// motion, and only pointer motion, as consumed; every other event,
/// including those the controller reacts to, propagates further.
pub proof fn lemma_only_pointer_motion_consumed(s: State, e: InputEvent)
    ensures
        spec_input(s, e).1 <==> e is PointerMoved,
{
}

/// Law: two consecutive toggle key presses return the state, including the
/// active texture selection, to exactly its original value.
pub proof fn lemma_toggle_involution(s: State)
    ensures
        spec_input(
            spec_input(s, InputEvent::KeyPressed { key: Key::Toggle }).0,
            InputEvent::KeyPressed { key: Key::Toggle },
        ).0 == s,
{
}

} // verus!
