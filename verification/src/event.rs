//! Window and device events, reduced to what the renderer reads of them.

use vstd::prelude::*;
use crate::renderer::SurfaceSize;

verus! {

/// Whether a key or button went down or came up.
#[derive(Clone, Copy, Debug, PartialEq, Eq, Structural)]
pub enum ElementState {
    Pressed,
    Released,
}

impl ElementState {
    pub open spec fn spec_is_pressed(self) -> bool {
        self is Pressed
    }

    #[verifier::when_used_as_spec(spec_is_pressed)]
    pub fn is_pressed(self) -> (pressed: bool)
        ensures
            pressed == self.spec_is_pressed(),
    {
        match self {
            ElementState::Pressed => true,
            ElementState::Released => false,
        }
    }
}

/// A mouse button; every button beyond the first three is `Other`.
#[derive(Clone, Copy, Debug, PartialEq, Eq, Structural)]
pub enum MouseButton {
    Left,
    Right,
    Middle,
    Other,
}

/// The keys that the application reacts to; every other key is `Other`.
#[derive(Clone, Copy, Debug, PartialEq, Eq, Structural)]
pub enum KeyCode {
    KeyA,
    KeyD,
    KeyE,
    KeyF,
    KeyQ,
    KeyS,
    KeyW,
    Other,
}

/// A window event; every event that the application does not react to is
/// `Other`.
#[derive(Clone, Copy, Debug, PartialEq, Eq, Structural)]
pub enum WindowEvent {
    CloseRequested,
    KeyboardInput { state: ElementState, key: KeyCode },
    Resized(SurfaceSize),
    ScaleFactorChanged,
    MouseInput { state: ElementState, button: MouseButton },
    Other,
}

/// A device event. The distance of a mouse motion stays with the caller.
#[derive(Clone, Copy, Debug, PartialEq, Eq, Structural)]
pub enum DeviceEvent {
    MouseMotion,
    Key { state: ElementState, key: KeyCode },
    Other,
}

} // verus!
