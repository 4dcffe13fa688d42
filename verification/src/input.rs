//! The discrete events the host event loop hands to the render state.

use vstd::prelude::*;

verus! {

/// The keys the core reacts to. Every other key arrives as `Other`.
#[derive(Clone, Copy, Debug, PartialEq, Eq, Structural)]
pub enum Key {
    /// Move toward the target.
    Forward,
    /// Move away from the target.
    Backward,
    /// Strafe left.
    Left,
    /// Strafe right.
    Right,
    /// Flip the active texture selection.
    Toggle,
    /// Any key without a binding.
    Other,
}

/// A window event, reduced to the data the core reads from it.
#[derive(Clone, Copy, Debug, PartialEq, Eq, Structural)]
pub enum InputEvent {
    /// The pointer moved to pixel position (x, y) inside the surface.
    PointerMoved { x: u32, y: u32 },
    KeyPressed { key: Key },
    KeyReleased { key: Key },
    /// The window lost keyboard focus; release events may never arrive.
    FocusLost,
    /// Any other window event.
    Other,
}

} // verus!
