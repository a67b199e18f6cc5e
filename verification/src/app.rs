//! The application's reaction to window and device events, and its redraw.

use vstd::prelude::*;
use crate::camera::CameraView;
use crate::camera_controller::{CameraController, CameraControllerView};
use crate::event::{DeviceEvent, ElementState, KeyCode, MouseButton, WindowEvent};
use crate::renderer::{
    action_views, intermediate_targets, recorded_pass, render_actions, FrameAction,
    FrameActionView, Renderer, SurfaceSize,
};

verus! {

/// What the event loop is to do after a window event was handled.
#[derive(Clone, Copy, Debug, PartialEq, Eq, Structural)]
pub enum WindowEventHandlingResult {
    RequestExit,
    Handled,
}

/// A resize is taken on when both dimensions are positive and the size
/// differs from the current one.
pub open spec fn accepts_resize(current: SurfaceSize, new_size: SurfaceSize) -> bool {
    new_size.width > 0 && new_size.height > 0 && new_size != current
}

/// The size of the output after a resize was asked for.
pub open spec fn resized(current: SurfaceSize, new_size: SurfaceSize) -> SurfaceSize {
    if accepts_resize(current, new_size) {
        new_size
    } else {
        current
    }
}

/// What a redraw does, in order: it writes the uniform buffers and renders
/// one frame, which checks the shaders, brings the intermediate render
/// targets up to the size of the output, and records and submits the passes.
pub open spec fn redraw_actions(size: SurfaceSize, targets_size: Option<SurfaceSize>) -> Seq<
    FrameActionView,
> {
    seq![FrameActionView::UpdateUniforms] + render_actions(size, targets_size)
}

/// What the application holds besides its pipelines, which no event and no
/// redraw touches.
pub struct AppView {
    pub size: SurfaceSize,
    pub targets_size: Option<SurfaceSize>,
    pub should_draw_gui: bool,
    pub camera_controller: CameraControllerView,
}

impl AppView {
    /// The application after a resize was asked for: a resize that is taken
    /// on sets the size of the output and the aspect of the camera.
    pub open spec fn resize(self, new_size: SurfaceSize) -> AppView {
        if accepts_resize(self.size, new_size) {
            AppView {
                size: new_size,
                camera_controller: CameraControllerView {
                    camera: CameraView { aspect: new_size, ..self.camera_controller.camera },
                    ..self.camera_controller
                },
                ..self
            }
        } else {
            self
        }
    }

    /// The application after a window event: the F key going down toggles
    /// the debug overlay, a resize is taken on as `resize` says, and the right
    /// mouse button enables camera movement while it is held. Nothing else
    /// changes anything.
    pub open spec fn handle_window_event(self, event: WindowEvent) -> AppView {
        match event {
            WindowEvent::KeyboardInput { state, key } => {
                if state is Pressed && key is KeyF {
                    AppView { should_draw_gui: !self.should_draw_gui, ..self }
                } else {
                    self
                }
            },
            WindowEvent::Resized(new_size) => self.resize(new_size),
            WindowEvent::MouseInput { state, button } => {
                if button is Right {
                    AppView {
                        camera_controller: self.camera_controller.set_is_movement_enabled(
                            state is Pressed,
                        ),
                        ..self
                    }
                } else {
                    self
                }
            },
            _ => self,
        }
    }

    /// The application after a device event, which only the camera
    /// controller sees.
    pub open spec fn handle_device_event(self, event: DeviceEvent) -> AppView {
        AppView { camera_controller: self.camera_controller.process_device_events(event), ..self }
    }

    /// The application after a redraw: the intermediate render targets are
    /// built for the size of the output.
    pub open spec fn request_redraw(self) -> AppView {
        AppView { targets_size: Some(self.size), ..self }
    }
}

/// Only a request to close the window ends the application.
pub open spec fn window_event_result(event: WindowEvent) -> WindowEventHandlingResult {
    if event is CloseRequested {
        WindowEventHandlingResult::RequestExit
    } else {
        WindowEventHandlingResult::Handled
    }
}

/// The application: the renderer and the camera controller. `P` is the
/// caller's handle for a compute pipeline and `F` its colour format.
#[derive(Debug, PartialEq, Eq)]
pub struct App<P, F> {
    pub renderer: Renderer<P, F>,
    pub camera_controller: CameraController,
}

impl<P, F> View for App<P, F> {
    type V = AppView;

    open spec fn view(&self) -> AppView {
        AppView {
            size: self.renderer.size,
            targets_size: self.renderer.targets_size,
            should_draw_gui: self.renderer.should_draw_gui,
            camera_controller: self.camera_controller@,
        }
    }
}

impl<P, F: Copy> App<P, F> {
    /// Puts the application together. The camera starts with the aspect of
    /// the renderer's output.
    pub fn new(renderer: Renderer<P, F>) -> (app: Self)
        ensures
            app.renderer == renderer,
            app.camera_controller@ == CameraControllerView::initial(renderer.size),
    {
        let camera_controller = CameraController::new(renderer.size);
        App { renderer, camera_controller }
    }

    /// Takes on a new output size if both dimensions are positive and it
    /// differs from the current size: the renderer and the camera follow it.
    /// Otherwise nothing changes. The pipelines stay as they are either way,
    /// and so do the intermediate render targets until the next redraw.
    pub fn resize(&mut self, new_size: SurfaceSize)
        ensures
            final(self)@ == old(self)@.resize(new_size),
            final(self).renderer.size == resized(old(self).renderer.size, new_size),
            final(self).renderer.main_rp == old(self).renderer.main_rp,
            final(self).renderer.post_process_manager == old(self).renderer.post_process_manager,
    {
        if new_size.width > 0 && new_size.height > 0 && new_size != self.renderer.size {
            self.renderer.resize(new_size);
            self.camera_controller.resize(new_size);
        }
    }

    /// Reacts to a window event. Returns whether the application is to exit.
    pub fn handle_window_event(&mut self, event: WindowEvent) -> (result:
        WindowEventHandlingResult)
        ensures
            final(self)@ == old(self)@.handle_window_event(event),
            final(self).renderer.main_rp == old(self).renderer.main_rp,
            final(self).renderer.post_process_manager == old(self).renderer.post_process_manager,
            result == window_event_result(event),
    {
        match event {
            WindowEvent::CloseRequested => {
                return WindowEventHandlingResult::RequestExit;
            },
            WindowEvent::KeyboardInput { state, key } => {
                if state == ElementState::Pressed && key == KeyCode::KeyF {
                    self.renderer.toggle_should_draw_gui();
                }
            },
            WindowEvent::Resized(new_size) => {
                self.resize(new_size);
            },
            WindowEvent::ScaleFactorChanged => {},
            WindowEvent::MouseInput { state, button } => {
                if button == MouseButton::Right {
                    self.camera_controller.set_is_movement_enabled(state == ElementState::Pressed);
                }
            },
            WindowEvent::Other => {},
        }
        WindowEventHandlingResult::Handled
    }

    /// Hands a device event to the camera controller. Returns whether the
    /// caller is to turn the camera by the distance of the motion.
    pub fn handle_device_event(&mut self, event: DeviceEvent) -> (rotate: bool)
        ensures
            final(self)@ == old(self)@.handle_device_event(event),
            final(self).renderer == old(self).renderer,
            rotate == old(self)@.camera_controller.rotates_on(event),
    {
        self.camera_controller.process_device_events(event)
    }

    /// Redraws: the uniform buffers are written first, then the renderer
    /// renders one frame for the current output size.
    pub fn request_redraw(&mut self) -> (actions: Vec<FrameAction>)
        ensures
            action_views(actions@) == redraw_actions(old(self)@.size, old(self)@.targets_size),
            final(self)@ == old(self)@.request_redraw(),
            final(self).renderer.main_rp == old(self).renderer.main_rp,
            final(self).renderer.post_process_manager == old(self).renderer.post_process_manager,
    {
        let mut actions: Vec<FrameAction> = Vec::new();
        actions.push(FrameAction::UpdateUniforms);
        let mut frame = self.renderer.render();
        let ghost rendered = frame@;
        actions.append(&mut frame);
        assert(action_views(actions@) =~= seq![FrameActionView::UpdateUniforms] + action_views(
            rendered,
        )) by {
            assert(actions@ =~= seq![FrameAction::UpdateUniforms] + rendered);
        }
        actions
    }
}

/// Resizing the output to any size and back leaves it at the size it had.
/// The intermediate render targets follow from the size alone, so they are
/// then the ones of that size again.
pub proof fn law_resize_round_trip(initial: SurfaceSize, other: SurfaceSize)
    requires
        initial.width > 0,
        initial.height > 0,
    ensures
        resized(resized(initial, other), initial) == initial,
        intermediate_targets(resized(resized(initial, other), initial)) == intermediate_targets(
            initial,
        ),
{
}

/// The same for the whole application. With no redraw in between, a resize
/// and one back leave everything as it was, the intermediate render targets
/// untouched. With a redraw after each, the targets are rebuilt for the
/// other size and then for the first one again, and everything is as it was
/// after a redraw at the first size.
pub proof fn law_app_resize_round_trip(app: AppView, other: SurfaceSize)
    requires
        app.size.width > 0,
        app.size.height > 0,
        app.camera_controller.camera.aspect == app.size,
    ensures
        app.resize(other).resize(app.size) == app,
        app.resize(other).request_redraw().resize(app.size).request_redraw()
            == app.request_redraw(),
        app.resize(other).request_redraw().resize(app.size).request_redraw().targets_size == Some(
            app.size,
        ),
{
}

/// A resize that is not taken on changes nothing, and one that is taken on
/// changes only the size and the aspect of the camera. The targets are not
/// current after a resize that was taken on while they were.
pub proof fn law_resize_changes_size_only(app: AppView, new_size: SurfaceSize)
    ensures
        app.resize(new_size).size == resized(app.size, new_size),
        app.resize(new_size).targets_size == app.targets_size,
        app.resize(new_size).should_draw_gui == app.should_draw_gui,
        app.resize(new_size).camera_controller.is_movement_enabled
            == app.camera_controller.is_movement_enabled,
        !accepts_resize(app.size, new_size) ==> app.resize(new_size) == app,
        accepts_resize(app.size, new_size) && app.targets_size == Some(app.size) ==> app.resize(
            new_size,
        ).targets_size != Some(app.resize(new_size).size),
{
}

/// A redraw after a resize that was taken on rebuilds every intermediate
/// render target for the new size before any pass is recorded, and a redraw
/// with current targets rebuilds nothing.
pub proof fn law_redraw_rebuilds_after_resize(app: AppView, new_size: SurfaceSize)
    requires
        app.targets_size == Some(app.size),
    ensures
        redraw_actions(app.size, app.targets_size).len() == 8,
        forall|i: int|
            0 <= i < 8 ==> !(#[trigger] redraw_actions(app.size, app.targets_size)[i]
                is RebuildTargets),
        accepts_resize(app.size, new_size) ==> redraw_actions(
            app.resize(new_size).size,
            app.resize(new_size).targets_size,
        )[2] == (FrameActionView::RebuildTargets { targets: intermediate_targets(new_size) }),
        !accepts_resize(app.size, new_size) ==> redraw_actions(
            app.resize(new_size).size,
            app.resize(new_size).targets_size,
        ) == redraw_actions(app.size, app.targets_size),
{
}

/// In a redraw the uniform buffers are written once, at the start, so that
/// the writes are queued before the submission; the shaders are checked
/// once, right after; the targets are rebuilt at most once, after that; every
/// pass is recorded after all three; and the recording is submitted once, at
/// the end.
pub proof fn law_redraw_order(size: SurfaceSize, targets_size: Option<SurfaceSize>, i: int)
    requires
        0 <= i < redraw_actions(size, targets_size).len(),
    ensures
        redraw_actions(size, targets_size).len() == if targets_size == Some(size) {
            8int
        } else {
            9int
        },
        redraw_actions(size, targets_size)[i] is UpdateUniforms <==> i == 0,
        i > 0 ==> redraw_actions(size, targets_size)[i] == render_actions(size, targets_size)[i - 1],
        redraw_actions(size, targets_size)[i] is ReloadShaders <==> i == 1,
        redraw_actions(size, targets_size)[i] is RebuildTargets <==> i == 2 && targets_size != Some(
            size,
        ),
        redraw_actions(size, targets_size)[i] is Submit <==> i == redraw_actions(
            size,
            targets_size,
        ).len() - 1,
        recorded_pass(redraw_actions(size, targets_size)[i]) matches Some(pass) ==> i
            == redraw_actions(size, targets_size).len() - 6 + pass.position(),
{
}

} // verus!
