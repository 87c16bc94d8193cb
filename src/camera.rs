use vstd::prelude::*;
use crate::fixed::{UNIT, clamp64, fx_mul_spec, sat_add, sat_sub, fx_mul};

verus! {

/// The pitch limit in micro-radians: a tenth of a milliradian short of a
/// quarter turn, so the camera never looks straight up or down.
pub const PITCH_LIMIT: i64 = 1_570_696;

/// A quarter turn (90 degrees) in micro-radians, rounded down.
pub const QUARTER_TURN: i64 = 1_570_796;

/// A free-fly camera in fixed point: position in micro-units, yaw and pitch
/// in micro-radians.
#[derive(Clone, Copy, Debug, PartialEq, Eq, Structural)]
pub struct Camera {
    pub x: i64,
    pub y: i64,
    pub z: i64,
    pub yaw: i64,
    pub pitch: i64,
}

/// `p` limited to `[-PITCH_LIMIT, PITCH_LIMIT]`.
pub open spec fn clamp_pitch_spec(p: int) -> int {
    if p < -PITCH_LIMIT {
        -PITCH_LIMIT as int
    } else if p > PITCH_LIMIT {
        PITCH_LIMIT as int
    } else {
        p
    }
}

fn clamp_pitch(p: i64) -> (r: i64)
    ensures
        r == clamp_pitch_spec(p as int),
{
    if p < -PITCH_LIMIT {
        -PITCH_LIMIT
    } else if p > PITCH_LIMIT {
        PITCH_LIMIT
    } else {
        p
    }
}

impl Camera {
    /// The pitch lies strictly between -90 and 90 degrees.
    pub open spec fn wf(&self) -> bool {
        -PITCH_LIMIT <= self.pitch <= PITCH_LIMIT
    }

    /// A camera at the given position and orientation, with the pitch
    /// limited to the allowed range.
    pub fn new(x: i64, y: i64, z: i64, yaw: i64, pitch: i64) -> (r: Camera)
        ensures
            r.wf(),
            r == (Camera { x, y, z, yaw, pitch: clamp_pitch_spec(pitch as int) as i64 }),
    {
        Camera { x, y, z, yaw, pitch: clamp_pitch(pitch) }
    }
}

/// Sines and cosines of the camera's yaw and pitch, in fixed point.
#[derive(Clone, Copy, Debug, PartialEq, Eq, Structural)]
pub struct Heading {
    pub cos_yaw: i64,
    pub sin_yaw: i64,
    pub cos_pitch: i64,
    pub sin_pitch: i64,
}

impl Heading {
    /// Each value is a sine or cosine: between -1 and 1.
    pub open spec fn wf(&self) -> bool {
        &&& -UNIT <= self.cos_yaw <= UNIT
        &&& -UNIT <= self.sin_yaw <= UNIT
        &&& -UNIT <= self.cos_pitch <= UNIT
        &&& -UNIT <= self.sin_pitch <= UNIT
    }
}

/// A key that may steer the camera.
#[derive(Clone, Copy, Debug, PartialEq, Eq, Structural)]
pub enum Key {
    W,
    A,
    S,
    D,
    Up,
    Down,
    Left,
    Right,
    Space,
    LShift,
    /// The key that toggles cursor capture.
    Tab,
    Other,
}

/// The direction a key moves the camera in.
#[derive(Clone, Copy, Debug, PartialEq, Eq, Structural)]
pub enum Axis {
    Forward,
    Backward,
    Left,
    Right,
    Up,
    Down,
}

/// The direction bound to `key`, if any.
pub open spec fn axis_of(key: Key) -> Option<Axis> {
    match key {
        Key::W | Key::Up => Some(Axis::Forward),
        Key::S | Key::Down => Some(Axis::Backward),
        Key::A | Key::Left => Some(Axis::Left),
        Key::D | Key::Right => Some(Axis::Right),
        Key::Space => Some(Axis::Up),
        Key::LShift => Some(Axis::Down),
        Key::Tab | Key::Other => None,
    }
}

/// The direction bound to `key`, if any: WASD and the arrow keys move in
/// the horizontal plane, space moves up and left shift moves down.
pub fn key_axis(key: Key) -> (r: Option<Axis>)
    ensures
        r == axis_of(key),
{
    match key {
        Key::W | Key::Up => Some(Axis::Forward),
        Key::S | Key::Down => Some(Axis::Backward),
        Key::A | Key::Left => Some(Axis::Left),
        Key::D | Key::Right => Some(Axis::Right),
        Key::Space => Some(Axis::Up),
        Key::LShift => Some(Axis::Down),
        Key::Tab | Key::Other => None,
    }
}

/// Accumulates input between frames and turns it into camera motion. Key
/// amounts are `UNIT` while the key is held and zero otherwise; mouse and
/// scroll deltas add up until the next update consumes them.
#[derive(Clone, Copy, Debug, PartialEq, Eq, Structural)]
pub struct CameraController {
    pub amount_left: i64,
    pub amount_right: i64,
    pub amount_forward: i64,
    pub amount_backward: i64,
    pub amount_up: i64,
    pub amount_down: i64,
    pub rotate_horizontal: i64,
    pub rotate_vertical: i64,
    pub scroll: i64,
    /// Movement speed, in micro-units per second.
    pub speed: i64,
    /// Look and scroll sensitivity, in fixed point.
    pub sensitivity: i64,
}

/// The amount a key contributes while in the given state.
pub open spec fn amount_of(pressed: bool) -> i64 {
    if pressed {
        UNIT
    } else {
        0
    }
}

impl CameraController {
    pub open spec fn wf(&self) -> bool {
        &&& 0 <= self.amount_left <= UNIT
        &&& 0 <= self.amount_right <= UNIT
        &&& 0 <= self.amount_forward <= UNIT
        &&& 0 <= self.amount_backward <= UNIT
        &&& 0 <= self.amount_up <= UNIT
        &&& 0 <= self.amount_down <= UNIT
    }

    /// No key is held and no mouse or scroll input is pending.
    pub open spec fn at_rest(&self) -> bool {
        &&& self.amount_left == 0
        &&& self.amount_right == 0
        &&& self.amount_forward == 0
        &&& self.amount_backward == 0
        &&& self.amount_up == 0
        &&& self.amount_down == 0
        &&& self.rotate_horizontal == 0
        &&& self.rotate_vertical == 0
        &&& self.scroll == 0
    }

    /// The controller after `key` changed to the given state.
    pub open spec fn with_key(self, key: Key, pressed: bool) -> CameraController {
        let a = amount_of(pressed);
        match axis_of(key) {
            Some(Axis::Forward) => CameraController { amount_forward: a, ..self },
            Some(Axis::Backward) => CameraController { amount_backward: a, ..self },
            Some(Axis::Left) => CameraController { amount_left: a, ..self },
            Some(Axis::Right) => CameraController { amount_right: a, ..self },
            Some(Axis::Up) => CameraController { amount_up: a, ..self },
            Some(Axis::Down) => CameraController { amount_down: a, ..self },
            None => self,
        }
    }

    /// The controller once an update has consumed the look and scroll input.
    pub open spec fn consumed(self) -> CameraController {
        CameraController { rotate_horizontal: 0, rotate_vertical: 0, scroll: 0, ..self }
    }

    pub fn new(speed: i64, sensitivity: i64) -> (r: CameraController)
        ensures
            r.wf(),
            r.at_rest(),
            r.speed == speed,
            r.sensitivity == sensitivity,
    {
        CameraController {
            amount_left: 0,
            amount_right: 0,
            amount_forward: 0,
            amount_backward: 0,
            amount_up: 0,
            amount_down: 0,
            rotate_horizontal: 0,
            rotate_vertical: 0,
            scroll: 0,
            speed,
            sensitivity,
        }
    }

    /// Records that `key` was pressed or released. Returns whether the key
    /// steers the camera; any other key is ignored.
    pub fn process_keyboard(&mut self, key: Key, pressed: bool) -> (handled: bool)
        requires
            old(self).wf(),
        ensures
            final(self).wf(),
            handled == (axis_of(key) is Some),
            *final(self) == old(self).with_key(key, pressed),
    {
        let amount: i64 = if pressed {
            UNIT
        } else {
            0
        };
        match key_axis(key) {
            Some(Axis::Forward) => {
                self.amount_forward = amount;
                true
            },
            Some(Axis::Backward) => {
                self.amount_backward = amount;
                true
            },
            Some(Axis::Left) => {
                self.amount_left = amount;
                true
            },
            Some(Axis::Right) => {
                self.amount_right = amount;
                true
            },
            Some(Axis::Up) => {
                self.amount_up = amount;
                true
            },
            Some(Axis::Down) => {
                self.amount_down = amount;
                true
            },
            None => false,
        }
    }

    /// Adds a mouse motion to the pending look input (saturating).
    pub fn process_mouse(&mut self, dx: i64, dy: i64)
        requires
            old(self).wf(),
        ensures
            final(self).wf(),
            *final(self) == (CameraController {
                rotate_horizontal: clamp64(old(self).rotate_horizontal + dx) as i64,
                rotate_vertical: clamp64(old(self).rotate_vertical + dy) as i64,
                ..*old(self)
            }),
    {
        self.rotate_horizontal = sat_add(self.rotate_horizontal, dx);
        self.rotate_vertical = sat_add(self.rotate_vertical, dy);
    }

    /// Adds a wheel movement to the pending scroll input (saturating). As
    /// with the look input, the scroll is consumed by the next update; a
    /// positive wheel delta moves the camera backward along its view.
    pub fn process_scroll(&mut self, delta: i64)
        requires
            old(self).wf(),
        ensures
            final(self).wf(),
            *final(self) == (CameraController {
                scroll: clamp64(old(self).scroll - delta) as i64,
                ..*old(self)
            }),
    {
        self.scroll = sat_sub(self.scroll, delta);
    }

    /// Moves and turns `camera` by the input gathered since the last update,
    /// over a time step of `dt_micros` microseconds, and consumes the look
    /// and scroll input. `heading` holds the sines and cosines of the
    /// camera's yaw and pitch.
    pub fn update_camera(&mut self, camera: &mut Camera, heading: &Heading, dt_micros: u64)
        requires
            old(self).wf(),
            heading.wf(),
        ensures
            final(self).wf(),
            *final(self) == old(self).consumed(),
            *final(camera) == moved(*old(camera), *old(self), *heading, dt_fixed(dt_micros)),
            final(camera).wf(),
            -QUARTER_TURN < final(camera).pitch < QUARTER_TURN,
            old(self).at_rest() && old(camera).wf() ==> *final(camera) == *old(camera),
    {
        let dt: i64 = if dt_micros > i64::MAX as u64 {
            i64::MAX
        } else {
            dt_micros as i64
        };
        let step = fx_mul(self.speed, dt);

        let mf = fx_mul(self.amount_forward - self.amount_backward, step);
        camera.x = sat_add(camera.x, fx_mul(heading.cos_yaw, mf));
        camera.z = sat_add(camera.z, fx_mul(heading.sin_yaw, mf));

        let mr = fx_mul(self.amount_right - self.amount_left, step);
        camera.x = sat_add(camera.x, fx_mul(-heading.sin_yaw, mr));
        camera.z = sat_add(camera.z, fx_mul(heading.cos_yaw, mr));

        let ms = fx_mul(fx_mul(self.scroll, step), self.sensitivity);
        camera.x = sat_add(camera.x, fx_mul(fx_mul(heading.cos_pitch, heading.cos_yaw), ms));
        camera.y = sat_add(camera.y, fx_mul(heading.sin_pitch, ms));
        camera.z = sat_add(camera.z, fx_mul(fx_mul(heading.cos_pitch, heading.sin_yaw), ms));
        self.scroll = 0;

        let mu = fx_mul(self.amount_up - self.amount_down, step);
        camera.y = sat_add(camera.y, mu);

        let turn = fx_mul(fx_mul(self.rotate_horizontal, self.sensitivity), dt);
        camera.yaw = sat_add(camera.yaw, turn);
        let tilt = fx_mul(fx_mul(self.rotate_vertical, self.sensitivity), dt);
        camera.pitch = clamp_pitch(sat_add(camera.pitch, -tilt));
        self.rotate_horizontal = 0;
        self.rotate_vertical = 0;
        proof {
            if old(self).at_rest() && old(camera).wf() {
                lemma_no_drift_at_rest(*old(camera), *old(self), *heading, dt as int);
            }
        }
    }
}

/// A time step in microseconds as a fixed-point number of seconds,
/// saturated to the range of `i64`.
pub open spec fn dt_fixed(dt_micros: u64) -> int {
    if dt_micros > i64::MAX {
        i64::MAX as int
    } else {
        dt_micros as int
    }
}

/// The camera after one update by `ctl` over a time step of `dt` seconds
/// (fixed point), with every addition saturating. Keys move it along the
/// yaw direction, sideways and vertically; the scroll moves it along the
/// view direction; the look input turns it, the pitch being kept within
/// its limits.
pub open spec fn moved(cam: Camera, ctl: CameraController, h: Heading, dt: int) -> Camera {
    let step = fx_mul_spec(ctl.speed as int, dt);
    let mf = fx_mul_spec(ctl.amount_forward - ctl.amount_backward, step);
    let mr = fx_mul_spec(ctl.amount_right - ctl.amount_left, step);
    let ms = fx_mul_spec(fx_mul_spec(ctl.scroll as int, step), ctl.sensitivity as int);
    let mu = fx_mul_spec(ctl.amount_up - ctl.amount_down, step);
    let x1 = clamp64(cam.x + fx_mul_spec(h.cos_yaw as int, mf));
    let z1 = clamp64(cam.z + fx_mul_spec(h.sin_yaw as int, mf));
    let x2 = clamp64(x1 + fx_mul_spec(-h.sin_yaw, mr));
    let z2 = clamp64(z1 + fx_mul_spec(h.cos_yaw as int, mr));
    let x3 = clamp64(x2 + fx_mul_spec(fx_mul_spec(h.cos_pitch as int, h.cos_yaw as int), ms));
    let y1 = clamp64(cam.y + fx_mul_spec(h.sin_pitch as int, ms));
    let z3 = clamp64(z2 + fx_mul_spec(fx_mul_spec(h.cos_pitch as int, h.sin_yaw as int), ms));
    let y2 = clamp64(y1 + mu);
    let turn = fx_mul_spec(fx_mul_spec(ctl.rotate_horizontal as int, ctl.sensitivity as int), dt);
    let tilt = fx_mul_spec(fx_mul_spec(ctl.rotate_vertical as int, ctl.sensitivity as int), dt);
    Camera {
        x: x3 as i64,
        y: y2 as i64,
        z: z3 as i64,
        yaw: clamp64(cam.yaw + turn) as i64,
        pitch: clamp_pitch_spec(clamp64(cam.pitch - tilt)) as i64,
    }
}

/// With no key held and no look or scroll input pending, an update leaves
/// the camera where it was, whatever the time step.
pub proof fn lemma_no_drift_at_rest(cam: Camera, ctl: CameraController, h: Heading, dt: int)
    requires
        cam.wf(),
        ctl.at_rest(),
    ensures
        moved(cam, ctl, h, dt) == cam,
{
    let step = fx_mul_spec(ctl.speed as int, dt);
    assert(fx_mul_spec(0, step) == 0);
    assert(fx_mul_spec(0, ctl.sensitivity as int) == 0);
    assert(fx_mul_spec(0, dt) == 0);
    assert(fx_mul_spec(h.cos_yaw as int, 0) == 0);
    assert(fx_mul_spec(h.sin_yaw as int, 0) == 0);
    assert(fx_mul_spec(-h.sin_yaw, 0) == 0);
    assert(fx_mul_spec(h.sin_pitch as int, 0) == 0);
    assert(fx_mul_spec(fx_mul_spec(h.cos_pitch as int, h.cos_yaw as int), 0) == 0);
    assert(fx_mul_spec(fx_mul_spec(h.cos_pitch as int, h.sin_yaw as int), 0) == 0);
}

} // verus!
