//! First-person camera controller.
//!
//! Angles are held in millidegrees, so that clamping and wrapping are exact.
//! The floating-point pose (eye position, facing vector, matrices) is derived
//! from this state by the rendering side: the facing vector is
//! `(cos(yaw)·cos(pitch), sin(pitch), sin(yaw)·cos(pitch))`.

use vstd::prelude::*;

verus! {

/// Millidegrees in one degree.
pub const MILLIDEGREES: i64 = 1000;

/// Largest magnitude of the pitch, in millidegrees (89 degrees).
pub const PITCH_LIMIT: i32 = 89000;

/// Narrowest vertical field of view, in millidegrees (1 degree).
pub const FOV_MIN: i32 = 1000;

/// Widest vertical field of view, in millidegrees (45 degrees).
pub const FOV_MAX: i32 = 45000;

/// Half a turn, in millidegrees: yaw is kept in `[-HALF_TURN, HALF_TURN)`.
pub const HALF_TURN: i64 = 180000;

/// A full turn, in millidegrees.
pub const FULL_TURN: i64 = 360000;

/// `v` held to the closed range `[lo, hi]`.
pub open spec fn clamp(v: int, lo: int, hi: int) -> int {
    if v < lo {
        lo
    } else if v > hi {
        hi
    } else {
        v
    }
}

/// The angle `a` brought into `[-HALF_TURN, HALF_TURN)` by whole turns.
pub open spec fn wrap_angle(a: int) -> int {
    (a + HALF_TURN) % (FULL_TURN as int) - HALF_TURN
}

/// The field of view after `delta` scroll ticks, one degree each.
pub open spec fn zoomed_fov(fov_y: int, delta: int) -> int {
    clamp(fov_y - delta * MILLIDEGREES, FOV_MIN as int, FOV_MAX as int)
}

/// The pitch after a vertical pointer delta of `delta` counts.
pub open spec fn looked_pitch(pitch: int, delta: int, sensitivity: int) -> int {
    clamp(pitch + delta * sensitivity, -PITCH_LIMIT, PITCH_LIMIT as int)
}

/// The yaw after a horizontal pointer delta of `delta` counts.
pub open spec fn looked_yaw(yaw: int, delta: int, sensitivity: int) -> int {
    wrap_angle(yaw + delta * sensitivity)
}

/// The state after each pointer delta of `deltas` in turn.
pub open spec fn look_all(v: CameraView, deltas: Seq<(int, int)>) -> CameraView
    decreases deltas.len(),
{
    if deltas.len() == 0 {
        v
    } else {
        look_all(v.looked(deltas[0].0, deltas[0].1), deltas.drop_first())
    }
}

/// The state after each scroll of `ticks` in turn.
pub open spec fn zoom_all(v: CameraView, ticks: Seq<int>) -> CameraView
    decreases ticks.len(),
{
    if ticks.len() == 0 {
        v
    } else {
        zoom_all(v.zoomed(ticks[0]), ticks.drop_first())
    }
}

/// One pointer move keeps the camera's invariants.
pub proof fn lemma_look_preserves_wf(v: CameraView, dx: int, dy: int)
    requires
        v.wf(),
    ensures
        v.looked(dx, dy).wf(),
{
}

/// However the pointer moves, the pitch stays within `[-PITCH_LIMIT, PITCH_LIMIT]`
/// (and the other invariants hold) after every move.
pub proof fn lemma_pitch_stays_bounded(v: CameraView, deltas: Seq<(int, int)>)
    requires
        v.wf(),
    ensures
        look_all(v, deltas).wf(),
        -PITCH_LIMIT <= look_all(v, deltas).pitch <= PITCH_LIMIT,
    decreases deltas.len(),
{
    if deltas.len() > 0 {
        lemma_look_preserves_wf(v, deltas[0].0, deltas[0].1);
        lemma_pitch_stays_bounded(v.looked(deltas[0].0, deltas[0].1), deltas.drop_first());
    }
}

/// However the wheel scrolls, the field of view stays within `[FOV_MIN, FOV_MAX]`
/// (and the other invariants hold).
pub proof fn lemma_fov_stays_bounded(v: CameraView, ticks: Seq<int>)
    requires
        v.wf(),
    ensures
        zoom_all(v, ticks).wf(),
        FOV_MIN <= zoom_all(v, ticks).fov_y <= FOV_MAX,
    decreases ticks.len(),
{
    if ticks.len() > 0 {
        lemma_fov_stays_bounded(v.zoomed(ticks[0]), ticks.drop_first());
    }
}

/// Configuration record a camera starts from.
pub struct CameraDescriptor {
    /// Width part of the aspect ratio `aspect_width / aspect_height`.
    pub aspect_width: u32,
    /// Height part of the aspect ratio.
    pub aspect_height: u32,
    /// Vertical field of view, in millidegrees.
    pub fov_y: i32,
    /// Movement speed, in thousandths of a world unit per second.
    pub speed: u32,
    /// Starting yaw, in millidegrees.
    pub yaw: i32,
    /// Starting pitch, in millidegrees.
    pub pitch: i32,
    /// Millidegrees of rotation per pointer count.
    pub mouse_sensitivity: u32,
}

impl CameraDescriptor {
    /// The record satisfies the camera's invariants.
    pub open spec fn valid(&self) -> bool {
        &&& self.aspect_width > 0
        &&& self.aspect_height > 0
        &&& -PITCH_LIMIT <= self.pitch <= PITCH_LIMIT
        &&& FOV_MIN <= self.fov_y <= FOV_MAX
    }

    /// Whether the record satisfies the camera's invariants.
    pub fn is_valid(&self) -> (r: bool)
        ensures
            r == self.valid(),
    {
        self.aspect_width > 0 && self.aspect_height > 0 && -PITCH_LIMIT <= self.pitch
            && self.pitch <= PITCH_LIMIT && FOV_MIN <= self.fov_y && self.fov_y <= FOV_MAX
    }
}

impl Default for CameraDescriptor {
    /// A 16:9 view with a 45 degree field of view, looking down the negative z axis.
    fn default() -> (r: Self)
        ensures
            r.aspect_width == 16,
            r.aspect_height == 9,
            r.fov_y == 45000,
            r.speed == 10000,
            r.yaw == -90000,
            r.pitch == 0,
            r.mouse_sensitivity == 100,
            r.valid(),
    {
        CameraDescriptor {
            aspect_width: 16,
            aspect_height: 9,
            fov_y: 45000,
            speed: 10000,
            yaw: -90000,
            pitch: 0,
            mouse_sensitivity: 100,
        }
    }
}

/// Abstract state of a camera.
pub struct CameraView {
    pub yaw: int,
    pub pitch: int,
    pub fov_y: int,
    pub aspect_width: nat,
    pub aspect_height: nat,
    pub speed: nat,
    pub mouse_sensitivity: nat,
}

impl CameraView {
    /// The camera's invariants.
    pub open spec fn wf(self) -> bool {
        &&& -HALF_TURN <= self.yaw < HALF_TURN
        &&& -PITCH_LIMIT <= self.pitch <= PITCH_LIMIT
        &&& FOV_MIN <= self.fov_y <= FOV_MAX
        &&& self.aspect_width > 0
        &&& self.aspect_height > 0
    }

    /// State after the pointer moved by `(dx, dy)` counts.
    pub open spec fn looked(self, dx: int, dy: int) -> CameraView {
        CameraView {
            yaw: looked_yaw(self.yaw, dx, self.mouse_sensitivity as int),
            pitch: looked_pitch(self.pitch, dy, self.mouse_sensitivity as int),
            ..self
        }
    }

    /// State after `delta` scroll ticks.
    pub open spec fn zoomed(self, delta: int) -> CameraView {
        CameraView { fov_y: zoomed_fov(self.fov_y, delta), ..self }
    }

    /// State after the viewport became `width` by `height`.
    pub open spec fn with_aspect(self, width: nat, height: nat) -> CameraView {
        CameraView { aspect_width: width, aspect_height: height, ..self }
    }
}

/// The state a camera built from `desc` starts in.
pub open spec fn initial_view(desc: CameraDescriptor) -> CameraView {
    CameraView {
        yaw: wrap_angle(desc.yaw as int),
        pitch: desc.pitch as int,
        fov_y: desc.fov_y as int,
        aspect_width: desc.aspect_width as nat,
        aspect_height: desc.aspect_height as nat,
        speed: desc.speed as nat,
        mouse_sensitivity: desc.mouse_sensitivity as nat,
    }
}

/// A movement requested from the keyboard.
#[derive(Clone, Copy, Debug, PartialEq, Eq, Structural)]
pub enum Motion {
    Forward,
    Backward,
    StrafeLeft,
    StrafeRight,
}

/// A move along the camera's own axes, in billionths of a world unit: `forward`
/// along the facing vector, `right` along the normalized `facing × up`.
#[derive(Clone, Copy, Debug, PartialEq, Eq, Structural)]
pub struct Displacement {
    pub forward: i128,
    pub right: i128,
}

impl Displacement {
    /// No movement at all.
    pub open spec fn is_zero(self) -> bool {
        self.forward == 0 && self.right == 0
    }
}

/// The move made at `speed` (thousandths of a unit per second) for `dt`
/// microseconds; nothing when `dt <= 0`.
pub open spec fn travel_of(speed: nat, motion: Motion, dt: int) -> Displacement {
    if dt <= 0 {
        Displacement { forward: 0, right: 0 }
    } else {
        let d = speed * dt;
        match motion {
            Motion::Forward => Displacement { forward: d as i128, right: 0 },
            Motion::Backward => Displacement { forward: (-d) as i128, right: 0 },
            Motion::StrafeLeft => Displacement { forward: 0, right: (-d) as i128 },
            Motion::StrafeRight => Displacement { forward: 0, right: d as i128 },
        }
    }
}

/// Camera orientation, zoom and projection shape.
pub struct Camera {
    yaw: i32,
    pitch: i32,
    fov_y: i32,
    aspect_width: u32,
    aspect_height: u32,
    speed: u32,
    mouse_sensitivity: u32,
}

impl View for Camera {
    type V = CameraView;

    closed spec fn view(&self) -> CameraView {
        CameraView {
            yaw: self.yaw as int,
            pitch: self.pitch as int,
            fov_y: self.fov_y as int,
            aspect_width: self.aspect_width as nat,
            aspect_height: self.aspect_height as nat,
            speed: self.speed as nat,
            mouse_sensitivity: self.mouse_sensitivity as nat,
        }
    }
}

/// `a` brought into `[-HALF_TURN, HALF_TURN)` by whole turns.
fn wrap(a: i128) -> (r: i32)
    requires
        -0x1_0000_0000_0000_0000_0000_0000 <= a <= 0x1_0000_0000_0000_0000_0000_0000,
    ensures
        r == wrap_angle(a as int),
{
    let m = (a + HALF_TURN as i128).checked_rem_euclid(FULL_TURN as i128);
    match m {
        Some(v) => (v - HALF_TURN as i128) as i32,
        None => 0,
    }
}

impl Camera {
    /// The camera's invariants hold.
    pub open spec fn wf(&self) -> bool {
        self@.wf()
    }

    /// A camera in the state that `desc` describes; its yaw is kept modulo a full turn.
    pub fn new(desc: &CameraDescriptor) -> (r: Camera)
        requires
            desc.valid(),
        ensures
            r@ == initial_view(*desc),
            r.wf(),
    {
        Camera {
            yaw: wrap(desc.yaw as i128),
            pitch: desc.pitch,
            fov_y: desc.fov_y,
            aspect_width: desc.aspect_width,
            aspect_height: desc.aspect_height,
            speed: desc.speed,
            mouse_sensitivity: desc.mouse_sensitivity,
        }
    }

    /// Turns the camera by pointer deltas scaled by the mouse sensitivity. The
    /// pitch is clamped to `[-PITCH_LIMIT, PITCH_LIMIT]`; the yaw wraps around.
    pub fn yaw_pitch(&mut self, yaw: i64, pitch: i64)
        requires
            old(self).wf(),
        ensures
            final(self)@ == old(self)@.looked(yaw as int, pitch as int),
            final(self).wf(),
    {
        let s = self.mouse_sensitivity as i128;
        assert(-0x8000_0000_0000_0000_0000_0000 <= (yaw as int) * (s as int) <= 0x8000_0000_0000_0000_0000_0000)
            by (nonlinear_arith)
            requires
                -0x8000_0000_0000_0000 <= yaw <= 0x8000_0000_0000_0000,
                0 <= s <= 0x1_0000_0000,
        ;
        assert(-0x8000_0000_0000_0000_0000_0000 <= (pitch as int) * (s as int) <= 0x8000_0000_0000_0000_0000_0000)
            by (nonlinear_arith)
            requires
                -0x8000_0000_0000_0000 <= pitch <= 0x8000_0000_0000_0000,
                0 <= s <= 0x1_0000_0000,
        ;
        let turned = self.yaw as i128 + yaw as i128 * s;
        self.yaw = wrap(turned);
        let tilted = self.pitch as i128 + pitch as i128 * s;
        self.pitch = if tilted > PITCH_LIMIT as i128 {
            PITCH_LIMIT
        } else if tilted < -PITCH_LIMIT as i128 {
            -PITCH_LIMIT
        } else {
            tilted as i32
        };
    }

    /// Narrows the field of view by `delta` degrees (widens it for a negative
    /// `delta`), clamped to `[FOV_MIN, FOV_MAX]`.
    pub fn zoom(&mut self, delta: i32)
        requires
            old(self).wf(),
        ensures
            final(self)@ == old(self)@.zoomed(delta as int),
            final(self).wf(),
    {
        let f: i64 = self.fov_y as i64 - delta as i64 * MILLIDEGREES;
        self.fov_y = if f < FOV_MIN as i64 {
            FOV_MIN
        } else if f > FOV_MAX as i64 {
            FOV_MAX
        } else {
            f as i32
        };
    }

    /// Makes the projection follow a viewport of `width` by `height` pixels.
    pub fn set_aspect_ratio(&mut self, width: u32, height: u32)
        requires
            old(self).wf(),
            width > 0,
            height > 0,
        ensures
            final(self)@ == old(self)@.with_aspect(width as nat, height as nat),
            final(self).wf(),
    {
        self.aspect_width = width;
        self.aspect_height = height;
    }

    /// How far `motion` carries the camera in `dt` microseconds at its speed.
    pub fn travel(&self, motion: Motion, dt: i64) -> (r: Displacement)
        ensures
            r == travel_of(self@.speed, motion, dt as int),
            dt <= 0 ==> r.is_zero(),
    {
        if dt <= 0 {
            return Displacement { forward: 0, right: 0 };
        }
        let s = self.speed as i128;
        assert((s as int) * (dt as int) <= 0x8000_0000_0000_0000_0000_0000) by (nonlinear_arith)
            requires
                0 <= dt <= 0x8000_0000_0000_0000,
                0 <= s <= 0x1_0000_0000,
        ;
        let d = s * dt as i128;
        match motion {
            Motion::Forward => Displacement { forward: d, right: 0 },
            Motion::Backward => Displacement { forward: -d, right: 0 },
            Motion::StrafeLeft => Displacement { forward: 0, right: -d },
            Motion::StrafeRight => Displacement { forward: 0, right: d },
        }
    }

    /// Yaw, in millidegrees.
    pub fn yaw(&self) -> (r: i32)
        ensures
            r == self@.yaw,
    {
        self.yaw
    }

    /// Pitch, in millidegrees.
    pub fn pitch(&self) -> (r: i32)
        ensures
            r == self@.pitch,
    {
        self.pitch
    }

    /// Vertical field of view, in millidegrees.
    pub fn fov_y(&self) -> (r: i32)
        ensures
            r == self@.fov_y,
    {
        self.fov_y
    }

    /// The aspect ratio as `(width, height)`.
    pub fn aspect_ratio(&self) -> (r: (u32, u32))
        ensures
            r.0 == self@.aspect_width,
            r.1 == self@.aspect_height,
    {
        (self.aspect_width, self.aspect_height)
    }
}

} // verus!
