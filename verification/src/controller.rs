//! The camera controller: maps held movement keys to camera displacements.

use vstd::prelude::*;
use crate::camera::{coord_in_cam_range, Camera, CAM_MAX};
use crate::input::{InputEvent, Key};
use crate::vec3::{
    spec_vadd, spec_vcross, spec_vneg, spec_vnormalize, spec_vscale, spec_vsub, vadd, vcross,
    vneg, vnormalize, vscale, vsub, Vec3,
};

verus! {

#[derive(Clone, Copy, Debug, PartialEq, Eq, Structural)]
pub struct CameraController {
    /// Displacement per update tick, in fixed-point units.
    pub speed: i128,
    pub forward_pressed: bool,
    pub backward_pressed: bool,
    pub left_pressed: bool,
    pub right_pressed: bool,
}

/// What one key press or release does to the held-key set; every other
/// event leaves it unchanged. The returned flag says whether the
/// controller consumed the event.
pub open spec fn spec_process_input(c: CameraController, e: InputEvent) -> (CameraController,
    bool) {
    match e {
        InputEvent::KeyPressed { key: Key::Forward } => (
            CameraController { forward_pressed: true, ..c },
            true,
        ),
        InputEvent::KeyPressed { key: Key::Backward } => (
            CameraController { backward_pressed: true, ..c },
            true,
        ),
        InputEvent::KeyPressed { key: Key::Left } => (
            CameraController { left_pressed: true, ..c },
            true,
        ),
        InputEvent::KeyPressed { key: Key::Right } => (
            CameraController { right_pressed: true, ..c },
            true,
        ),
        InputEvent::KeyReleased { key: Key::Forward } => (
            CameraController { forward_pressed: false, ..c },
            true,
        ),
        InputEvent::KeyReleased { key: Key::Backward } => (
            CameraController { backward_pressed: false, ..c },
            true,
        ),
        InputEvent::KeyReleased { key: Key::Left } => (
            CameraController { left_pressed: false, ..c },
            true,
        ),
        InputEvent::KeyReleased { key: Key::Right } => (
            CameraController { right_pressed: false, ..c },
            true,
        ),
        // Focus loss clears every held key: no release event will come,
        // and a stuck key must not keep moving the camera.
        InputEvent::FocusLost => (
            CameraController {
                forward_pressed: false,
                backward_pressed: false,
                left_pressed: false,
                right_pressed: false,
                ..c
            },
            false,
        ),
        _ => (c, false),
    }
}

/// Displace eye and target together by `s` (a dolly step), unless that
/// would leave the camera's working range; then the move is skipped.
pub open spec fn spec_move(cam: Camera, s: Vec3) -> Camera {
    let e = spec_vadd(cam.eye, s);
    let t = spec_vadd(cam.target, s);
    if coord_in_cam_range(e) && coord_in_cam_range(t) {
        Camera { eye: e, target: t, ..cam }
    } else {
        cam
    }
}

/// The full update tick: displacements along the normalized forward and
/// side axes for each held key, forward/backward before left/right.
pub open spec fn spec_apply(c: CameraController, cam: Camera) -> Camera {
    let fwd_raw = spec_vsub(cam.target, cam.eye);
    let fwd = spec_vnormalize(fwd_raw);
    let side = spec_vnormalize(spec_vcross(fwd_raw, cam.up));
    let step_f = spec_vscale(fwd, c.speed as int);
    let step_s = spec_vscale(side, c.speed as int);
    let cam1 = if c.forward_pressed {
        spec_move(cam, step_f)
    } else {
        cam
    };
    let cam2 = if c.backward_pressed {
        spec_move(cam1, spec_vneg(step_f))
    } else {
        cam1
    };
    let cam3 = if c.right_pressed {
        spec_move(cam2, step_s)
    } else {
        cam2
    };
    if c.left_pressed {
        spec_move(cam3, spec_vneg(step_s))
    } else {
        cam3
    }
}

/// A run of update ticks, each with the held-key state and speed its
/// controller value carries.
pub open spec fn spec_apply_all(ticks: Seq<CameraController>, cam: Camera) -> Camera
    decreases ticks.len(),
{
    if ticks.len() == 0 {
        cam
    } else {
        spec_apply_all(ticks.drop_first(), spec_apply(ticks[0], cam))
    }
}

/// Law: the controller is deterministic. A fixed sequence of held-key
/// states and speeds, applied to identical initial cameras, produces
/// identical displacements: the tick depends on nothing but the controller
/// value and the camera it starts from.
pub proof fn lemma_apply_deterministic(
    ticks: Seq<CameraController>,
    cam1: Camera,
    cam2: Camera,
)
    requires
        cam1 == cam2,
    ensures
        spec_apply_all(ticks, cam1) == spec_apply_all(ticks, cam2),
{
}

proof fn lemma_move_preserves_frame(cam: Camera, s: Vec3)
    ensures
        spec_vsub(spec_move(cam, s).target, spec_move(cam, s).eye) == spec_vsub(cam.target,
            cam.eye),
        spec_move(cam, s).up == cam.up,
{
}

/// Law: the update tick is a dolly. Whatever keys are held, eye and target
/// are displaced identically, so the eye-to-target vector and the up
/// vector come through every tick unchanged.
pub proof fn lemma_apply_preserves_heading(c: CameraController, cam: Camera)
    ensures
        spec_vsub(spec_apply(c, cam).target, spec_apply(c, cam).eye) == spec_vsub(cam.target,
            cam.eye),
        spec_apply(c, cam).up == cam.up,
{
    let fwd_raw = spec_vsub(cam.target, cam.eye);
    let fwd = spec_vnormalize(fwd_raw);
    let side = spec_vnormalize(spec_vcross(fwd_raw, cam.up));
    let step_f = spec_vscale(fwd, c.speed as int);
    let step_s = spec_vscale(side, c.speed as int);
    let cam1 = if c.forward_pressed {
        spec_move(cam, step_f)
    } else {
        cam
    };
    lemma_move_preserves_frame(cam, step_f);
    let cam2 = if c.backward_pressed {
        spec_move(cam1, spec_vneg(step_f))
    } else {
        cam1
    };
    lemma_move_preserves_frame(cam1, spec_vneg(step_f));
    let cam3 = if c.right_pressed {
        spec_move(cam2, step_s)
    } else {
        cam2
    };
    lemma_move_preserves_frame(cam2, step_s);
    lemma_move_preserves_frame(cam3, spec_vneg(step_s));
}

fn in_cam_range(v: Vec3) -> (r: bool)
    ensures
        r == coord_in_cam_range(v),
{
    -CAM_MAX <= v.x && v.x <= CAM_MAX && -CAM_MAX <= v.y && v.y <= CAM_MAX && -CAM_MAX <= v.z
        && v.z <= CAM_MAX
}

/// A guarded dolly move; preserves the eye-to-target vector and the up
/// vector exactly, so the camera invariant survives every tick.
fn move_camera(cam: &mut Camera, s: Vec3)
    requires
        old(cam).wf(),
        s.wf(),
    ensures
        *final(cam) == spec_move(*old(cam), s),
        final(cam).wf(),
        spec_vsub(final(cam).target, final(cam).eye) == spec_vsub(old(cam).target, old(cam).eye),
        final(cam).up == old(cam).up,
{
    let e = vadd(cam.eye, s);
    let t = vadd(cam.target, s);
    if in_cam_range(e) && in_cam_range(t) {
        cam.eye = e;
        cam.target = t;
    }
}

impl CameraController {
    pub fn new(speed: i128) -> (r: CameraController)
        requires
            0 <= speed <= CAM_MAX,
        ensures
            r == (CameraController {
                speed,
                forward_pressed: false,
                backward_pressed: false,
                left_pressed: false,
                right_pressed: false,
            }),
            r.wf(),
    {
        CameraController {
            speed,
            forward_pressed: false,
            backward_pressed: false,
            left_pressed: false,
            right_pressed: false,
        }
    }

    pub open spec fn wf(self) -> bool {
        0 <= self.speed <= CAM_MAX
    }

    /// Record a key press or release; returns whether the event was one
    /// of the movement keys this controller tracks.
    pub fn process_input(&mut self, event: &InputEvent) -> (consumed: bool)
        ensures
            (*final(self), consumed) == spec_process_input(*old(self), *event),
            final(self).speed == old(self).speed,
    {
        match *event {
            InputEvent::KeyPressed { key } => match key {
                Key::Forward => {
                    self.forward_pressed = true;
                    true
                },
                Key::Backward => {
                    self.backward_pressed = true;
                    true
                },
                Key::Left => {
                    self.left_pressed = true;
                    true
                },
                Key::Right => {
                    self.right_pressed = true;
                    true
                },
                _ => false,
            },
            InputEvent::KeyReleased { key } => match key {
                Key::Forward => {
                    self.forward_pressed = false;
                    true
                },
                Key::Backward => {
                    self.backward_pressed = false;
                    true
                },
                Key::Left => {
                    self.left_pressed = false;
                    true
                },
                Key::Right => {
                    self.right_pressed = false;
                    true
                },
                _ => false,
            },
            InputEvent::FocusLost => {
                self.forward_pressed = false;
                self.backward_pressed = false;
                self.left_pressed = false;
                self.right_pressed = false;
                false
            },
            _ => false,
        }
    }

    /// One update tick over the camera.
    pub fn apply(&self, camera: &mut Camera)
        requires
            old(camera).wf(),
            self.wf(),
        ensures
            *final(camera) == spec_apply(*self, *old(camera)),
            final(camera).wf(),
    {
        let fwd_raw = vsub(camera.target, camera.eye);
        let fwd = vnormalize(fwd_raw);
        let side = vnormalize(vcross(fwd_raw, camera.up));
        let step_f = vscale(fwd, self.speed);
        let step_s = vscale(side, self.speed);
        if self.forward_pressed {
            move_camera(camera, step_f);
        }
        if self.backward_pressed {
            move_camera(camera, vneg(step_f));
        }
        if self.right_pressed {
            move_camera(camera, step_s);
        }
        if self.left_pressed {
            move_camera(camera, vneg(step_s));
        }
    }
}

} // verus!
