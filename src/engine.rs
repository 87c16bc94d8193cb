use vstd::prelude::*;
use crate::fixed::clamp64;
use crate::targets::RenderTargets;
use crate::cursor::{CursorCapture, GrabMode};
use crate::camera::{Camera, CameraController, Heading, Key, moved, dt_fixed};
use crate::frame::{EntityDraw, FrameStep, SurfaceFault, frame_step, frame_commands, recoverable};

verus! {

/// Initial distance of the camera from the origin along +z, in micro-units.
pub const START_Z: i64 = 3_000_000;

/// Camera speed, in micro-units per second.
pub const CAMERA_SPEED: i64 = 5_000_000;

/// Look and scroll sensitivity, in fixed point (0.4).
pub const CAMERA_SENSITIVITY: i64 = 400_000;

/// The scene: the camera with its controller, and the entities drawn in
/// list order.
#[derive(Debug)]
pub struct World {
    pub camera: Camera,
    pub controller: CameraController,
    pub entities: Vec<EntityDraw>,
}

impl World {
    pub open spec fn wf(&self) -> bool {
        self.camera.wf() && self.controller.wf()
    }

    /// A world holding `entities`, with the camera three units from the
    /// origin along +z at yaw and pitch zero, and the controller at rest.
    pub fn new(entities: Vec<EntityDraw>) -> (r: World)
        ensures
            r.wf(),
            r.entities@ == entities@,
            r.camera == (Camera { x: 0, y: 0, z: START_Z, yaw: 0, pitch: 0 }),
            r.controller.at_rest(),
            r.controller.speed == CAMERA_SPEED,
            r.controller.sensitivity == CAMERA_SENSITIVITY,
    {
        World {
            camera: Camera::new(0, 0, START_Z, 0, 0),
            controller: CameraController::new(CAMERA_SPEED, CAMERA_SENSITIVITY),
            entities,
        }
    }
}

/// An input event from the window, in the renderer's terms.
#[derive(Clone, Copy, Debug, PartialEq, Eq, Structural)]
pub enum InputEvent {
    /// A key changed state.
    Key { key: Key, pressed: bool },
    /// The mouse wheel moved by this many fixed-point lines.
    Wheel(i64),
    /// Anything else.
    Other,
}

/// How an input event was taken.
#[derive(Clone, Copy, Debug, PartialEq, Eq, Structural)]
pub enum InputResponse {
    /// The event is not the renderer's.
    Ignored,
    /// The event was applied.
    Handled,
    /// The cursor capture is to be toggled: try `grab_attempts` in order,
    /// then call `finish_capture_toggle` with the mode granted.
    ToggleCapture,
}

/// Everything the renderer decides on without the GPU: the sizes of its
/// targets, the cursor capture, and the world.
#[derive(Debug)]
pub struct RendererState {
    pub targets: RenderTargets,
    pub cursor: CursorCapture,
    pub world: World,
}

impl RendererState {
    pub open spec fn wf(&self) -> bool {
        self.targets.wf() && self.cursor.wf() && self.world.wf()
    }

    /// The state for a window of `width` x `height` showing `world`, with
    /// the cursor free.
    pub fn new(width: u32, height: u32, world: World) -> (r: RendererState)
        requires
            world.wf(),
        ensures
            r.wf(),
            r.targets.surface_width == width,
            r.targets.surface_height == height,
            !r.cursor.captured,
            r.world == world,
    {
        RendererState {
            targets: RenderTargets::new(width, height),
            cursor: CursorCapture::new(),
            world,
        }
    }

    /// Follows a window resize; see `RenderTargets::resize`. The world and
    /// the cursor are not affected.
    pub fn resize(&mut self, width: u32, height: u32) -> (rebuilt: bool)
        requires
            old(self).wf(),
        ensures
            final(self).wf(),
            rebuilt == (width > 0 && height > 0),
            rebuilt ==> final(self).targets.surface_width == width
                && final(self).targets.surface_height == height,
            !rebuilt ==> final(self).targets == old(self).targets,
            final(self).cursor == old(self).cursor,
            final(self).world == old(self).world,
    {
        self.targets.resize(width, height)
    }

    /// Applies a window event. A press of Tab asks for the cursor capture
    /// to be toggled; other key events go to the camera controller, which
    /// ignores keys it does not know; the wheel goes to the controller.
    pub fn window_input(&mut self, event: InputEvent) -> (r: InputResponse)
        requires
            old(self).wf(),
        ensures
            final(self).wf(),
            final(self).targets == old(self).targets,
            final(self).cursor == old(self).cursor,
            final(self).world.camera == old(self).world.camera,
            final(self).world.entities == old(self).world.entities,
            match event {
                InputEvent::Key { key, pressed } => if key == Key::Tab && pressed {
                    r == InputResponse::ToggleCapture && final(self).world.controller
                        == old(self).world.controller
                } else {
                    r == InputResponse::Handled && final(self).world.controller
                        == old(self).world.controller.with_key(key, pressed)
                },
                InputEvent::Wheel(delta) => r == InputResponse::Handled
                    && final(self).world.controller == (CameraController {
                        scroll: clamp64(old(self).world.controller.scroll - delta) as i64,
                        ..old(self).world.controller
                    }),
                InputEvent::Other => r == InputResponse::Ignored
                    && final(self).world.controller == old(self).world.controller,
            },
    {
        match event {
            InputEvent::Key { key: Key::Tab, pressed: true } => InputResponse::ToggleCapture,
            InputEvent::Key { key, pressed } => {
                self.world.controller.process_keyboard(key, pressed);
                InputResponse::Handled
            },
            InputEvent::Wheel(delta) => {
                self.world.controller.process_scroll(delta);
                InputResponse::Handled
            },
            InputEvent::Other => InputResponse::Ignored,
        }
    }

    /// The grab modes to try, in order, for a toggle of the capture.
    pub fn grab_attempts(&self) -> (r: Vec<GrabMode>)
        ensures
            r@ == self.cursor.attempts_of(),
    {
        self.cursor.grab_attempts()
    }

    /// Completes a toggle of the capture with the grab mode the platform
    /// granted (`None` if it granted none, which changes nothing).
    pub fn finish_capture_toggle(&mut self, granted: Option<GrabMode>)
        requires
            old(self).wf(),
            granted matches Some(m) ==> old(self).cursor.attempts_of().contains(m),
        ensures
            final(self).wf(),
            final(self).cursor == old(self).cursor.after_toggle(granted),
            final(self).targets == old(self).targets,
            final(self).world == old(self).world,
    {
        self.cursor.toggle(granted);
    }

    /// Applies raw mouse motion, which steers the camera only while the
    /// cursor is captured. Returns whether it was applied.
    pub fn device_input(&mut self, dx: i64, dy: i64) -> (applied: bool)
        requires
            old(self).wf(),
        ensures
            final(self).wf(),
            applied == old(self).cursor.captured,
            final(self).targets == old(self).targets,
            final(self).cursor == old(self).cursor,
            final(self).world.camera == old(self).world.camera,
            final(self).world.entities == old(self).world.entities,
            applied ==> final(self).world.controller == (CameraController {
                rotate_horizontal: clamp64(old(self).world.controller.rotate_horizontal + dx) as i64,
                rotate_vertical: clamp64(old(self).world.controller.rotate_vertical + dy) as i64,
                ..old(self).world.controller
            }),
            !applied ==> final(self).world.controller == old(self).world.controller,
    {
        if self.cursor.forwards_motion() {
            self.world.controller.process_mouse(dx, dy);
            true
        } else {
            false
        }
    }

    /// Advances the camera by a time step of `dt_micros` microseconds;
    /// `heading` holds the sines and cosines of its current yaw and pitch.
    pub fn update(&mut self, dt_micros: u64, heading: &Heading)
        requires
            old(self).wf(),
            heading.wf(),
        ensures
            final(self).wf(),
            final(self).world.camera == moved(
                old(self).world.camera,
                old(self).world.controller,
                *heading,
                dt_fixed(dt_micros),
            ),
            final(self).world.controller == old(self).world.controller.consumed(),
            final(self).targets == old(self).targets,
            final(self).cursor == old(self).cursor,
            final(self).world.entities == old(self).world.entities,
    {
        self.world.controller.update_camera(&mut self.world.camera, heading, dt_micros);
    }

    /// Decides the frame once the surface has answered; see `frame_step`.
    pub fn render(&self, acquired: Result<(), SurfaceFault>) -> (r: FrameStep)
        ensures
            acquired is Ok <==> r is Record,
            r matches FrameStep::Record(c) ==> c@ == frame_commands(
                self.world.entities@,
                self.targets,
            ),
            acquired matches Err(f) ==> (recoverable(f) <==> r is Reconfigure),
            acquired matches Err(f) ==> (!recoverable(f) <==> r == FrameStep::Fail(f)),
    {
        frame_step(acquired, &self.world.entities, &self.targets)
    }
}

} // verus!
