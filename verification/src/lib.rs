//! Verified core of a small real-time rendering front end.
//!
//! The crate owns the camera transform subsystem and the frame
//! update/render state machine: fixed-point camera mathematics, the
//! input-to-state mapping, resize handling, and the per-frame decisions
//! that a host event loop carries out against the GPU.

pub mod camera;
pub mod controller;
pub mod fixed;
pub mod input;
pub mod mat4;
pub mod state;
pub mod vec3;
pub mod vertex;
