//! Per-frame decisions of the viewport runtime.
//!
//! The runtime owns the camera and the sizes of the presentable surface and of
//! its depth buffer. The caller runs the loop: it hands over each input event
//! and each outcome of acquiring a frame, and carries out what comes back
//! (reconfigure the surface and recreate the depth buffer, apply a move, render,
//! or stop).

use vstd::prelude::*;
use crate::camera::{Camera, CameraDescriptor, CameraView, Displacement, Motion, travel_of};

verus! {

/// A size in pixels.
#[derive(Clone, Copy, Debug, PartialEq, Eq, Structural)]
pub struct Extent {
    pub width: u32,
    pub height: u32,
}

impl Extent {
    /// Neither side is zero.
    pub open spec fn has_area(self) -> bool {
        self.width > 0 && self.height > 0
    }
}

/// Where the runtime is in its life.
#[derive(Clone, Copy, Debug, PartialEq, Eq, Structural)]
pub enum Phase {
    Initializing,
    Running,
    Terminating,
}

/// The keys the runtime reacts to.
#[derive(Clone, Copy, Debug, PartialEq, Eq, Structural)]
pub enum KeyCode {
    Escape,
    W,
    A,
    S,
    D,
    Other,
}

/// One event drained from the window system.
#[derive(Clone, Copy, Debug, PartialEq, Eq, Structural)]
pub enum InputEvent {
    /// The window is asked to close.
    Close,
    /// The window's drawable area now has this size.
    Resize { width: u32, height: u32 },
    /// A key changed state.
    Key { key: KeyCode, pressed: bool },
    /// The pointer moved by these raw counts; `dy` grows downwards.
    MouseMotion { dx: i32, dy: i32 },
    /// The wheel turned by this many ticks; positive is away from the user.
    MouseScroll { ticks: i32 },
}

/// What acquiring the next presentable image gave.
#[derive(Clone, Copy, Debug, PartialEq, Eq, Structural)]
pub enum AcquireOutcome {
    Image,
    /// The surface no longer matches the window and must be reconfigured.
    Outdated,
    Fatal,
}

/// What the caller does after trying to acquire an image.
#[derive(Clone, Copy, Debug, PartialEq, Eq, Structural)]
pub enum AcquireAction {
    /// Record and submit the frame against targets of this size, then present.
    Render(Extent),
    /// Reconfigure the surface and recreate the depth buffer at this size,
    /// then try to acquire once more.
    Rebuild(Extent),
    /// Give up: the process ends with an error.
    Fatal,
}

/// The movement a key asks for, if any.
pub open spec fn motion_of(key: KeyCode) -> Option<Motion> {
    match key {
        KeyCode::W => Some(Motion::Forward),
        KeyCode::S => Some(Motion::Backward),
        KeyCode::A => Some(Motion::StrafeLeft),
        KeyCode::D => Some(Motion::StrafeRight),
        _ => None,
    }
}

/// The recorded resize after a resize event to `width` by `height`: a
/// zero-area size is ignored.
pub open spec fn record_resize(pending: Option<Extent>, width: u32, height: u32) -> Option<Extent> {
    if width > 0 && height > 0 {
        Some(Extent { width, height })
    } else {
        pending
    }
}

/// Abstract state of a runtime.
pub struct RuntimeView {
    pub phase: Phase,
    /// Size the surface is configured at.
    pub surface: Extent,
    /// Size of the depth buffer.
    pub depth: Extent,
    /// Resize seen in this iteration and not yet applied.
    pub pending: Option<Extent>,
    pub camera: CameraView,
    /// Whether the current frame has already rebuilt the targets once.
    pub retried: bool,
}

impl RuntimeView {
    /// The runtime's invariants: the depth buffer always matches the surface,
    /// and while running both have an area.
    pub open spec fn wf(self) -> bool {
        &&& self.camera.wf()
        &&& self.depth == self.surface
        &&& self.phase == Phase::Running ==> self.surface.has_area()
        &&& self.pending matches Some(e) ==> e.has_area()
    }

    /// State after handling `event`. Events only count while running.
    pub open spec fn after_event(self, event: InputEvent) -> RuntimeView {
        if self.phase != Phase::Running {
            self
        } else {
            match event {
                InputEvent::Close => RuntimeView { phase: Phase::Terminating, ..self },
                InputEvent::Resize { width, height } => RuntimeView {
                    pending: record_resize(self.pending, width, height),
                    ..self
                },
                InputEvent::Key { key, pressed } => if key == KeyCode::Escape && pressed {
                    RuntimeView { phase: Phase::Terminating, ..self }
                } else {
                    self
                },
                InputEvent::MouseMotion { dx, dy } => RuntimeView {
                    camera: self.camera.looked(dx as int, -(dy as int)),
                    ..self
                },
                InputEvent::MouseScroll { ticks } => RuntimeView {
                    camera: self.camera.zoomed(ticks as int),
                    ..self
                },
            }
        }
    }

    /// The camera move that `event` asks for, `dt` microseconds into the frame.
    pub open spec fn event_displacement(self, event: InputEvent, dt: int) -> Displacement {
        match event {
            InputEvent::Key { key, pressed } => if self.phase == Phase::Running && pressed
                && motion_of(key).is_some() {
                travel_of(self.camera.speed, motion_of(key).unwrap(), dt)
            } else {
                Displacement { forward: 0, right: 0 }
            },
            _ => Displacement { forward: 0, right: 0 },
        }
    }

    /// State after each of `events` in turn.
    pub open spec fn after_events(self, events: Seq<InputEvent>) -> RuntimeView
        decreases events.len(),
    {
        if events.len() == 0 {
            self
        } else {
            self.after_event(events[0]).after_events(events.drop_first())
        }
    }

    /// State after the recorded resize, if any, is applied: surface, depth
    /// buffer and aspect ratio all take the new size together.
    pub open spec fn resize_applied(self) -> RuntimeView {
        match self.pending {
            Some(e) => if self.phase == Phase::Running {
                RuntimeView {
                    surface: e,
                    depth: e,
                    pending: None,
                    camera: self.camera.with_aspect(e.width as nat, e.height as nat),
                    ..self
                }
            } else {
                self
            },
            None => self,
        }
    }

    /// State after an attempt to acquire an image gave `outcome`.
    pub open spec fn after_acquire(self, outcome: AcquireOutcome) -> RuntimeView {
        match outcome {
            AcquireOutcome::Image => RuntimeView { retried: false, ..self },
            AcquireOutcome::Outdated => if self.retried {
                RuntimeView { phase: Phase::Terminating, ..self }
            } else {
                RuntimeView { retried: true, ..self }
            },
            AcquireOutcome::Fatal => RuntimeView { phase: Phase::Terminating, ..self },
        }
    }

    /// What the caller does after an attempt to acquire an image gave `outcome`.
    pub open spec fn acquire_action(self, outcome: AcquireOutcome) -> AcquireAction {
        match outcome {
            AcquireOutcome::Image => AcquireAction::Render(self.surface),
            AcquireOutcome::Outdated => if self.retried {
                AcquireAction::Fatal
            } else {
                AcquireAction::Rebuild(self.surface)
            },
            AcquireOutcome::Fatal => AcquireAction::Fatal,
        }
    }
}

/// A run of resize events whose last one has an area leaves that size
/// recorded, with the rest of the state as it was.
proof fn lemma_resizes_record_last(v: RuntimeView, events: Seq<InputEvent>, width: u32, height: u32)
    requires
        v.phase == Phase::Running,
        events.len() > 0,
        forall|i: int| 0 <= i < events.len() ==> events[i] is Resize,
        events.last() == (InputEvent::Resize { width, height }),
        width > 0,
        height > 0,
    ensures
        v.after_events(events) == (RuntimeView {
            pending: Some(Extent { width, height }),
            ..v
        }),
    decreases events.len(),
{
    let next = v.after_event(events[0]);
    let rest = events.drop_first();
    assert(events[0] is Resize);
    assert(next.phase == Phase::Running);
    assert(v.after_events(events) == next.after_events(rest));
    if events.len() > 1 {
        assert forall|i: int| 0 <= i < rest.len() implies rest[i] is Resize by {
            assert(rest[i] == events[i + 1]);
        }
        assert(rest.last() == events.last());
        lemma_resizes_record_last(next, rest, width, height);
    } else {
        assert(rest.len() == 0);
        assert(events[0] == events.last());
        assert(next.after_events(rest) == next);
    }
}

/// After any run of resize events that ends at `width` by `height`, both
/// non-zero, the surface and the depth buffer are `width` by `height` once the
/// resize is applied, and the camera's aspect ratio is `width / height`.
pub proof fn lemma_targets_follow_last_resize(
    v: RuntimeView,
    events: Seq<InputEvent>,
    width: u32,
    height: u32,
)
    requires
        v.wf(),
        v.phase == Phase::Running,
        events.len() > 0,
        forall|i: int| 0 <= i < events.len() ==> events[i] is Resize,
        events.last() == (InputEvent::Resize { width, height }),
        width > 0,
        height > 0,
    ensures
        v.after_events(events).resize_applied().surface == (Extent { width, height }),
        v.after_events(events).resize_applied().depth == (Extent { width, height }),
        v.after_events(events).resize_applied().camera.aspect_width == width,
        v.after_events(events).resize_applied().camera.aspect_height == height,
        v.after_events(events).resize_applied().wf(),
{
    lemma_resizes_record_last(v, events, width, height);
}

/// A resize to a size with no area changes nothing: the targets keep their
/// prior size whether or not a resize is applied afterwards.
pub proof fn lemma_zero_area_resize_ignored(v: RuntimeView, width: u32, height: u32)
    requires
        v.wf(),
        width == 0 || height == 0,
    ensures
        v.after_event(InputEvent::Resize { width, height }) == v,
        v.after_event(InputEvent::Resize { width, height }).resize_applied() == v.resize_applied(),
        v.pending.is_none() ==> v.after_event(InputEvent::Resize { width, height }).resize_applied().surface == v.surface,
        v.pending.is_none() ==> v.after_event(InputEvent::Resize { width, height }).resize_applied().depth == v.depth,
{
}

/// In a frame that has not rebuilt yet, an outdated surface is rebuilt at the
/// current size exactly once: an image acquired next is rendered against targets
/// of that size, and a second outdated surface in a row ends the runtime.
pub proof fn lemma_outdated_rebuilds_once(v: RuntimeView)
    requires
        v.wf(),
        v.phase == Phase::Running,
        !v.retried,
    ensures
        v.acquire_action(AcquireOutcome::Outdated) == AcquireAction::Rebuild(v.surface),
        v.after_acquire(AcquireOutcome::Outdated).acquire_action(AcquireOutcome::Image)
            == AcquireAction::Render(v.surface),
        v.after_acquire(AcquireOutcome::Outdated).after_acquire(AcquireOutcome::Image) == v,
        v.after_acquire(AcquireOutcome::Outdated).acquire_action(AcquireOutcome::Outdated)
            == AcquireAction::Fatal,
        v.after_acquire(AcquireOutcome::Outdated).after_acquire(AcquireOutcome::Outdated).phase
            == Phase::Terminating,
{
}

/// A surface and the depth buffer that goes with it. Both are only ever
/// resized together.
pub struct ViewportTargets {
    surface: Extent,
    depth: Extent,
}

impl ViewportTargets {
    /// Size the surface is configured at.
    pub closed spec fn surface_spec(&self) -> Extent {
        self.surface
    }

    /// Size of the depth buffer.
    pub closed spec fn depth_spec(&self) -> Extent {
        self.depth
    }

    /// Targets of size `e`.
    pub fn new(e: Extent) -> (r: ViewportTargets)
        ensures
            r.surface_spec() == e,
            r.depth_spec() == e,
    {
        ViewportTargets { surface: e, depth: e }
    }

    /// Size the surface is configured at.
    pub fn surface(&self) -> (r: Extent)
        ensures
            r == self.surface_spec(),
    {
        self.surface
    }

    /// Size of the depth buffer.
    pub fn depth(&self) -> (r: Extent)
        ensures
            r == self.depth_spec(),
    {
        self.depth
    }
}

/// The viewport's per-frame state machine.
pub struct ViewportRuntime {
    phase: Phase,
    targets: ViewportTargets,
    pending: Option<Extent>,
    camera: Camera,
    retried: bool,
}

impl View for ViewportRuntime {
    type V = RuntimeView;

    closed spec fn view(&self) -> RuntimeView {
        RuntimeView {
            phase: self.phase,
            surface: self.targets.surface_spec(),
            depth: self.targets.depth_spec(),
            pending: self.pending,
            camera: self.camera@,
            retried: self.retried,
        }
    }
}

impl ViewportRuntime {
    /// The runtime's invariants hold.
    pub open spec fn wf(&self) -> bool {
        self@.wf()
    }

    /// A runtime that is still acquiring its collaborators, with a camera built
    /// from `desc`.
    pub fn new(desc: &CameraDescriptor) -> (r: ViewportRuntime)
        requires
            desc.valid(),
        ensures
            r.wf(),
            r@.phase == Phase::Initializing,
            r@.camera == crate::camera::initial_view(*desc),
            r@.pending.is_none(),
            !r@.retried,
    {
        ViewportRuntime {
            phase: Phase::Initializing,
            targets: ViewportTargets::new(Extent { width: 0, height: 0 }),
            pending: None,
            camera: Camera::new(desc),
            retried: false,
        }
    }

    /// Moves to running with a surface and depth buffer of `width` by `height`,
    /// once the window and the device are there. A zero-area size cannot be
    /// rendered to: the runtime then terminates and `false` comes back.
    pub fn start(&mut self, width: u32, height: u32) -> (r: bool)
        requires
            old(self).wf(),
            old(self)@.phase == Phase::Initializing,
        ensures
            final(self).wf(),
            r == (width > 0 && height > 0),
            r ==> final(self)@ == (RuntimeView {
                phase: Phase::Running,
                surface: Extent { width, height },
                depth: Extent { width, height },
                camera: old(self)@.camera.with_aspect(width as nat, height as nat),
                ..old(self)@
            }),
            !r ==> final(self)@ == (RuntimeView { phase: Phase::Terminating, ..old(self)@ }),
    {
        if width > 0 && height > 0 {
            let e = Extent { width, height };
            self.targets = ViewportTargets::new(e);
            self.camera.set_aspect_ratio(width, height);
            self.phase = Phase::Running;
            true
        } else {
            self.phase = Phase::Terminating;
            false
        }
    }

    /// Handles one input event, `dt` microseconds after the previous frame,
    /// and returns the move of the camera's eye that it asks for.
    pub fn handle_event(&mut self, event: InputEvent, dt: i64) -> (r: Displacement)
        requires
            old(self).wf(),
        ensures
            final(self).wf(),
            final(self)@ == old(self)@.after_event(event),
            r == old(self)@.event_displacement(event, dt as int),
    {
        let zero = Displacement { forward: 0, right: 0 };
        if self.phase != Phase::Running {
            return zero;
        }
        match event {
            InputEvent::Close => {
                self.phase = Phase::Terminating;
                zero
            },
            InputEvent::Resize { width, height } => {
                if width > 0 && height > 0 {
                    self.pending = Some(Extent { width, height });
                }
                zero
            },
            InputEvent::Key { key, pressed } => {
                if !pressed {
                    return zero;
                }
                match key {
                    KeyCode::Escape => {
                        self.phase = Phase::Terminating;
                        zero
                    },
                    KeyCode::W => self.camera.travel(Motion::Forward, dt),
                    KeyCode::S => self.camera.travel(Motion::Backward, dt),
                    KeyCode::A => self.camera.travel(Motion::StrafeLeft, dt),
                    KeyCode::D => self.camera.travel(Motion::StrafeRight, dt),
                    KeyCode::Other => zero,
                }
            },
            InputEvent::MouseMotion { dx, dy } => {
                self.camera.yaw_pitch(dx as i64, -(dy as i64));
                zero
            },
            InputEvent::MouseScroll { ticks } => {
                self.camera.zoom(ticks);
                zero
            },
        }
    }

    /// Applies the resize recorded in this iteration, if any: the caller then
    /// reconfigures the surface and recreates the depth buffer at the size that
    /// comes back, before anything is rendered.
    pub fn apply_resize(&mut self) -> (r: Option<Extent>)
        requires
            old(self).wf(),
        ensures
            final(self).wf(),
            final(self)@ == old(self)@.resize_applied(),
            r == (if old(self)@.phase == Phase::Running { old(self)@.pending } else { None }),
    {
        if self.phase != Phase::Running {
            return None;
        }
        match self.pending {
            Some(e) => {
                self.targets = ViewportTargets::new(e);
                self.camera.set_aspect_ratio(e.width, e.height);
                self.pending = None;
                Some(e)
            },
            None => None,
        }
    }

    /// Decides what follows an attempt to acquire the next image. An outdated
    /// surface is rebuilt once per frame; a second outdated surface in a row,
    /// or any other failure, ends the runtime.
    pub fn on_acquire(&mut self, outcome: AcquireOutcome) -> (r: AcquireAction)
        requires
            old(self).wf(),
            old(self)@.phase == Phase::Running,
        ensures
            final(self).wf(),
            final(self)@ == old(self)@.after_acquire(outcome),
            r == old(self)@.acquire_action(outcome),
            r matches AcquireAction::Render(e) ==> e == final(self)@.surface && e
                == final(self)@.depth,
    {
        match outcome {
            AcquireOutcome::Image => {
                self.retried = false;
                AcquireAction::Render(self.targets.surface())
            },
            AcquireOutcome::Outdated => {
                if self.retried {
                    self.phase = Phase::Terminating;
                    AcquireAction::Fatal
                } else {
                    self.retried = true;
                    AcquireAction::Rebuild(self.targets.surface())
                }
            },
            AcquireOutcome::Fatal => {
                self.phase = Phase::Terminating;
                AcquireAction::Fatal
            },
        }
    }

    /// Where the runtime is in its life.
    pub fn phase(&self) -> (r: Phase)
        ensures
            r == self@.phase,
    {
        self.phase
    }

    /// Whether the loop goes on.
    pub fn is_running(&self) -> (r: bool)
        ensures
            r == (self@.phase == Phase::Running),
    {
        self.phase == Phase::Running
    }

    /// The surface and its depth buffer.
    pub fn targets(&self) -> (r: &ViewportTargets)
        ensures
            r.surface_spec() == self@.surface,
            r.depth_spec() == self@.depth,
    {
        &self.targets
    }

    /// The camera, for the frame's uniforms.
    pub fn camera(&self) -> (r: &Camera)
        ensures
            r@ == self@.camera,
    {
        &self.camera
    }
}

} // verus!
