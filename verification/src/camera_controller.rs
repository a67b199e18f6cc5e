//! Decides which input events reach the camera.

use vstd::prelude::*;
use crate::camera::{Camera, CameraView};
use crate::event::DeviceEvent;
use crate::renderer::SurfaceSize;

verus! {

/// What a camera controller holds.
pub struct CameraControllerView {
    pub camera: CameraView,
    pub is_movement_enabled: bool,
}

impl CameraControllerView {
    /// A camera at rest with movement disabled.
    pub open spec fn initial(aspect: SurfaceSize) -> CameraControllerView {
        CameraControllerView { camera: CameraView::initial(aspect), is_movement_enabled: false }
    }

    /// Switching movement off also stops the camera.
    pub open spec fn set_is_movement_enabled(self, value: bool) -> CameraControllerView {
        CameraControllerView {
            camera: if value {
                self.camera
            } else {
                self.camera.stop_movement()
            },
            is_movement_enabled: value,
        }
    }

    /// Events reach the camera only while movement is enabled.
    pub open spec fn process_device_events(self, event: DeviceEvent) -> CameraControllerView {
        if self.is_movement_enabled {
            CameraControllerView { camera: self.camera.process_device_events(event), ..self }
        } else {
            self
        }
    }

    /// Whether the event turns the camera.
    pub open spec fn rotates_on(self, event: DeviceEvent) -> bool {
        self.is_movement_enabled && self.camera.rotates_on(event)
    }
}

/// The camera and the switch for its movement: events reach the camera only
/// while movement is enabled.
#[derive(Debug, PartialEq, Eq)]
pub struct CameraController {
    camera: Camera,
    is_movement_enabled: bool,
}

impl View for CameraController {
    type V = CameraControllerView;

    closed spec fn view(&self) -> CameraControllerView {
        CameraControllerView { camera: self.camera@, is_movement_enabled: self.is_movement_enabled }
    }
}

impl CameraController {
    pub fn new(aspect: SurfaceSize) -> (controller: CameraController)
        ensures
            controller@ == CameraControllerView::initial(aspect),
    {
        CameraController { camera: Camera::new(aspect), is_movement_enabled: false }
    }

    pub fn camera(&self) -> (camera: &Camera)
        ensures
            camera@ == self@.camera,
    {
        &self.camera
    }

    pub fn is_movement_enabled(&self) -> (enabled: bool)
        ensures
            enabled == self@.is_movement_enabled,
    {
        self.is_movement_enabled
    }

    pub fn resize(&mut self, aspect: SurfaceSize)
        ensures
            final(self)@ == (CameraControllerView {
                camera: CameraView { aspect, ..old(self)@.camera },
                ..old(self)@
            }),
    {
        self.camera.resize(aspect);
    }

    /// Enables or disables movement. Disabling it also stops the camera.
    pub fn set_is_movement_enabled(&mut self, value: bool)
        ensures
            final(self)@ == old(self)@.set_is_movement_enabled(value),
    {
        self.is_movement_enabled = value;
        if !self.is_movement_enabled {
            self.camera.stop_movement();
        }
    }

    /// Takes a device event. Returns whether the caller is to turn the
    /// camera by the distance of the motion.
    pub fn process_device_events(&mut self, event: DeviceEvent) -> (rotate: bool)
        ensures
            final(self)@ == old(self)@.process_device_events(event),
            rotate == old(self)@.rotates_on(event),
    {
        if self.is_movement_enabled {
            self.camera.process_device_events(event)
        } else {
            false
        }
    }
}

} // verus!
