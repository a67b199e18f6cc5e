//! Input state of the camera: which way it is asked to move and whether it
//! may rotate. Position, orientation and the matrices derived from them are
//! kept by the caller.

use vstd::prelude::*;
use crate::event::{DeviceEvent, ElementState, KeyCode};
use crate::renderer::SurfaceSize;

verus! {

/// One flag for each axis: `x` to the right, `y` up, `z` forward.
#[derive(Clone, Copy, Debug, PartialEq, Eq, Structural)]
pub struct AxisFlags {
    pub x: bool,
    pub y: bool,
    pub z: bool,
}

impl AxisFlags {
    /// No axis.
    pub open spec fn none() -> AxisFlags {
        AxisFlags { x: false, y: false, z: false }
    }
}

/// What a camera holds.
pub struct CameraView {
    /// The output dimensions whose ratio is the aspect of the projection.
    pub aspect: SurfaceSize,
    /// Axes along which a key asks for movement in the positive direction.
    pub current_speed_positive: AxisFlags,
    /// Axes along which a key asks for movement in the negative direction.
    pub current_speed_negative: AxisFlags,
    pub is_rotation_enabled: bool,
}

/// -1, 0 or 1: the direction along one axis that two opposite keys ask for.
pub open spec fn axis_direction(positive: bool, negative: bool) -> int {
    (if positive {
        1int
    } else {
        0int
    }) - (if negative {
        1int
    } else {
        0int
    })
}

impl CameraView {
    /// A camera at rest that may not rotate.
    pub open spec fn initial(aspect: SurfaceSize) -> CameraView {
        CameraView {
            aspect,
            current_speed_positive: AxisFlags::none(),
            current_speed_negative: AxisFlags::none(),
            is_rotation_enabled: false,
        }
    }

    /// The camera after a key went down or came up. W and S move forward and
    /// back, D and A right and left, Q and E up and down; a key that goes
    /// down sets its flag and one that comes up clears it. Other keys change
    /// nothing.
    pub open spec fn handle_keyboard_event(self, state: ElementState, key: KeyCode) -> CameraView {
        let on = state is Pressed;
        let positive = self.current_speed_positive;
        let negative = self.current_speed_negative;
        match key {
            KeyCode::KeyW => CameraView {
                current_speed_positive: AxisFlags { z: on, ..positive },
                ..self
            },
            KeyCode::KeyS => CameraView {
                current_speed_negative: AxisFlags { z: on, ..negative },
                ..self
            },
            KeyCode::KeyA => CameraView {
                current_speed_negative: AxisFlags { x: on, ..negative },
                ..self
            },
            KeyCode::KeyD => CameraView {
                current_speed_positive: AxisFlags { x: on, ..positive },
                ..self
            },
            KeyCode::KeyQ => CameraView {
                current_speed_positive: AxisFlags { y: on, ..positive },
                ..self
            },
            KeyCode::KeyE => CameraView {
                current_speed_negative: AxisFlags { y: on, ..negative },
                ..self
            },
            _ => self,
        }
    }

    /// The camera after a device event: a key event is handled as above, and
    /// nothing else changes the input state.
    pub open spec fn process_device_events(self, event: DeviceEvent) -> CameraView {
        match event {
            DeviceEvent::Key { state, key } => self.handle_keyboard_event(state, key),
            _ => self,
        }
    }

    /// Whether the event turns the camera: a mouse motion does, while
    /// rotation is enabled.
    pub open spec fn rotates_on(self, event: DeviceEvent) -> bool {
        event is MouseMotion && self.is_rotation_enabled
    }

    /// The camera with no movement asked for.
    pub open spec fn stop_movement(self) -> CameraView {
        CameraView {
            current_speed_positive: AxisFlags::none(),
            current_speed_negative: AxisFlags::none(),
            ..self
        }
    }

    /// Some key asks for movement that no opposite key cancels.
    pub open spec fn is_moving(self) -> bool {
        self.current_speed() != (0int, 0int, 0int)
    }

    /// The direction asked for along each axis.
    pub open spec fn current_speed(self) -> (int, int, int) {
        (
            axis_direction(self.current_speed_positive.x, self.current_speed_negative.x),
            axis_direction(self.current_speed_positive.y, self.current_speed_negative.y),
            axis_direction(self.current_speed_positive.z, self.current_speed_negative.z),
        )
    }
}

/// The input state of the camera.
#[derive(Debug, PartialEq, Eq)]
pub struct Camera {
    aspect: SurfaceSize,
    current_speed_positive: AxisFlags,
    current_speed_negative: AxisFlags,
    is_rotation_enabled: bool,
}

impl View for Camera {
    type V = CameraView;

    closed spec fn view(&self) -> CameraView {
        CameraView {
            aspect: self.aspect,
            current_speed_positive: self.current_speed_positive,
            current_speed_negative: self.current_speed_negative,
            is_rotation_enabled: self.is_rotation_enabled,
        }
    }
}

fn direction(positive: bool, negative: bool) -> (direction: i8)
    ensures
        direction == axis_direction(positive, negative),
{
    if positive == negative {
        0
    } else if positive {
        1
    } else {
        -1
    }
}

impl Camera {
    /// A camera at rest that may not rotate.
    pub fn new(aspect: SurfaceSize) -> (camera: Camera)
        ensures
            camera@ == CameraView::initial(aspect),
    {
        Camera {
            aspect,
            current_speed_positive: AxisFlags { x: false, y: false, z: false },
            current_speed_negative: AxisFlags { x: false, y: false, z: false },
            is_rotation_enabled: false,
        }
    }

    pub fn aspect(&self) -> (aspect: SurfaceSize)
        ensures
            aspect == self@.aspect,
    {
        self.aspect
    }

    pub fn is_rotation_enabled(&self) -> (enabled: bool)
        ensures
            enabled == self@.is_rotation_enabled,
    {
        self.is_rotation_enabled
    }

    /// Takes on the dimensions of the output as the aspect.
    pub fn resize(&mut self, aspect: SurfaceSize)
        ensures
            final(self)@ == (CameraView { aspect, ..old(self)@ }),
    {
        self.aspect = aspect;
    }

    pub fn set_is_camera_rotation_enabled(&mut self, is_enabled: bool)
        ensures
            final(self)@ == (CameraView { is_rotation_enabled: is_enabled, ..old(self)@ }),
    {
        self.is_rotation_enabled = is_enabled;
    }

    /// Takes a key that went down or came up: W and S ask for movement
    /// forward and back, D and A right and left, Q and E up and down.
    pub fn handle_keyboard_event(&mut self, state: ElementState, key: KeyCode)
        ensures
            final(self)@ == old(self)@.handle_keyboard_event(state, key),
    {
        let on = state.is_pressed();
        match key {
            KeyCode::KeyW => {
                self.current_speed_positive.z = on;
            },
            KeyCode::KeyS => {
                self.current_speed_negative.z = on;
            },
            KeyCode::KeyA => {
                self.current_speed_negative.x = on;
            },
            KeyCode::KeyD => {
                self.current_speed_positive.x = on;
            },
            KeyCode::KeyQ => {
                self.current_speed_positive.y = on;
            },
            KeyCode::KeyE => {
                self.current_speed_negative.y = on;
            },
            _ => {},
        }
    }

    /// Takes a device event. Returns whether the caller is to turn the
    /// camera by the distance of the motion.
    pub fn process_device_events(&mut self, event: DeviceEvent) -> (rotate: bool)
        ensures
            final(self)@ == old(self)@.process_device_events(event),
            rotate == old(self)@.rotates_on(event),
    {
        match event {
            DeviceEvent::MouseMotion => self.is_rotation_enabled,
            DeviceEvent::Key { state, key } => {
                self.handle_keyboard_event(state, key);
                false
            },
            DeviceEvent::Other => false,
        }
    }

    /// Forgets every key that is held.
    pub fn stop_movement(&mut self)
        ensures
            final(self)@ == old(self)@.stop_movement(),
    {
        self.current_speed_positive = AxisFlags { x: false, y: false, z: false };
        self.current_speed_negative = AxisFlags { x: false, y: false, z: false };
    }

    /// Whether the camera is to move at all with the next update.
    pub fn is_moving(&self) -> (moving: bool)
        ensures
            moving == self@.is_moving(),
    {
        let speed = self.current_speed();
        speed.0 != 0 || speed.1 != 0 || speed.2 != 0
    }

    /// The direction asked for along each axis, each -1, 0 or 1. The camera
    /// stays where it is when all three are 0.
    pub fn current_speed(&self) -> (speed: (i8, i8, i8))
        ensures
            (speed.0 as int, speed.1 as int, speed.2 as int) == self@.current_speed(),
    {
        (
            direction(self.current_speed_positive.x, self.current_speed_negative.x),
            direction(self.current_speed_positive.y, self.current_speed_negative.y),
            direction(self.current_speed_positive.z, self.current_speed_negative.z),
        )
    }
}

} // verus!
