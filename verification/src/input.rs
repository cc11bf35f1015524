//! Plain descriptions of the input events that steer the viewer.
//!
//! The windowing layer translates its own key codes and button events into
//! these values before handing them to the library.
use vstd::prelude::*;

verus! {

/// A physical key, as far as the viewer distinguishes keys.
#[derive(Clone, Copy, Debug, PartialEq, Eq, Structural)]
pub enum KeyCode {
    KeyW,
    KeyA,
    KeyS,
    KeyD,
    ArrowUp,
    ArrowLeft,
    ArrowDown,
    ArrowRight,
    Escape,
    /// Any key that the viewer does not react to.
    Other,
}

/// Whether a button went down or came back up.
#[derive(Clone, Copy, Debug, PartialEq, Eq, Structural)]
pub enum ElementState {
    Pressed,
    Released,
}

/// A mouse button.
#[derive(Clone, Copy, Debug, PartialEq, Eq, Structural)]
pub enum MouseButton {
    Left,
    Right,
    Middle,
    Back,
    Forward,
    Other,
}

} // verus!
