use wgpu_samples::camera::{CameraDescriptor, Displacement};
use wgpu_samples::runtime::{
    AcquireAction, AcquireOutcome, Extent, InputEvent, KeyCode, Phase, ViewportRuntime,
};

fn extent(width: u32, height: u32) -> Extent {
    Extent { width, height }
}

fn running(width: u32, height: u32) -> ViewportRuntime {
    let mut rt = ViewportRuntime::new(&CameraDescriptor::default());
    assert!(rt.start(width, height));
    rt
}

fn resize(width: u32, height: u32) -> InputEvent {
    InputEvent::Resize { width, height }
}

#[test]
fn new_runtime_is_initializing() {
    let rt = ViewportRuntime::new(&CameraDescriptor::default());
    assert_eq!(rt.phase(), Phase::Initializing);
    assert!(!rt.is_running());
    assert_eq!(rt.camera().aspect_ratio(), (16, 9));
}

#[test]
fn start_configures_matching_targets() {
    let rt = running(1280, 720);
    assert_eq!(rt.phase(), Phase::Running);
    assert_eq!(rt.targets().surface(), extent(1280, 720));
    assert_eq!(rt.targets().depth(), extent(1280, 720));
    assert_eq!(rt.camera().aspect_ratio(), (1280, 720));
}

#[test]
fn start_without_area_terminates() {
    let mut rt = ViewportRuntime::new(&CameraDescriptor::default());
    assert!(!rt.start(0, 720));
    assert_eq!(rt.phase(), Phase::Terminating);
}

#[test]
fn resize_rebuilds_depth_before_render() {
    let mut rt = running(1280, 720);
    rt.handle_event(resize(800, 600), 0);
    // Not applied yet: both targets still agree on the old size.
    assert_eq!(rt.targets().surface(), extent(1280, 720));
    assert_eq!(rt.targets().depth(), extent(1280, 720));
    assert_eq!(rt.apply_resize(), Some(extent(800, 600)));
    assert_eq!(rt.targets().surface(), extent(800, 600));
    assert_eq!(rt.targets().depth(), extent(800, 600));
    assert_eq!(rt.camera().aspect_ratio(), (800, 600));
    assert_eq!(rt.on_acquire(AcquireOutcome::Image), AcquireAction::Render(extent(800, 600)));
    assert_eq!(rt.apply_resize(), None);
}

#[test]
fn last_resize_of_a_run_wins() {
    let mut rt = running(1280, 720);
    for e in [resize(300, 200), resize(0, 0), resize(1024, 768), resize(640, 480)] {
        rt.handle_event(e, 0);
    }
    assert_eq!(rt.apply_resize(), Some(extent(640, 480)));
    assert_eq!(rt.targets().surface(), extent(640, 480));
    assert_eq!(rt.targets().depth(), extent(640, 480));
    assert_eq!(rt.camera().aspect_ratio(), (640, 480));
}

#[test]
fn zero_area_resize_is_ignored() {
    let mut rt = running(1280, 720);
    rt.handle_event(resize(800, 0), 0);
    rt.handle_event(resize(0, 600), 0);
    assert_eq!(rt.apply_resize(), None);
    assert_eq!(rt.targets().surface(), extent(1280, 720));
    assert_eq!(rt.targets().depth(), extent(1280, 720));
    assert_eq!(rt.camera().aspect_ratio(), (1280, 720));
}

#[test]
fn zero_area_after_valid_resize_keeps_valid_one() {
    let mut rt = running(1280, 720);
    rt.handle_event(resize(800, 600), 0);
    rt.handle_event(resize(0, 0), 0);
    assert_eq!(rt.apply_resize(), Some(extent(800, 600)));
}

#[test]
fn outdated_once_rebuilds_then_renders() {
    let mut rt = running(1280, 720);
    assert_eq!(rt.on_acquire(AcquireOutcome::Outdated), AcquireAction::Rebuild(extent(1280, 720)));
    assert!(rt.is_running());
    assert_eq!(rt.on_acquire(AcquireOutcome::Image), AcquireAction::Render(extent(1280, 720)));
    assert!(rt.is_running());
    // A later frame may rebuild once again.
    assert_eq!(rt.on_acquire(AcquireOutcome::Outdated), AcquireAction::Rebuild(extent(1280, 720)));
    assert_eq!(rt.on_acquire(AcquireOutcome::Image), AcquireAction::Render(extent(1280, 720)));
}

#[test]
fn outdated_twice_is_fatal() {
    let mut rt = running(1280, 720);
    assert_eq!(rt.on_acquire(AcquireOutcome::Outdated), AcquireAction::Rebuild(extent(1280, 720)));
    assert_eq!(rt.on_acquire(AcquireOutcome::Outdated), AcquireAction::Fatal);
    assert_eq!(rt.phase(), Phase::Terminating);
}

#[test]
fn acquire_failure_is_fatal() {
    let mut rt = running(1280, 720);
    assert_eq!(rt.on_acquire(AcquireOutcome::Fatal), AcquireAction::Fatal);
    assert_eq!(rt.phase(), Phase::Terminating);
}

#[test]
fn close_terminates() {
    let mut rt = running(1280, 720);
    rt.handle_event(InputEvent::Close, 0);
    assert_eq!(rt.phase(), Phase::Terminating);
}

#[test]
fn escape_press_terminates_release_does_not() {
    let mut rt = running(1280, 720);
    rt.handle_event(InputEvent::Key { key: KeyCode::Escape, pressed: false }, 0);
    assert!(rt.is_running());
    rt.handle_event(InputEvent::Key { key: KeyCode::Escape, pressed: true }, 0);
    assert_eq!(rt.phase(), Phase::Terminating);
}

#[test]
fn events_after_termination_are_ignored() {
    let mut rt = running(1280, 720);
    rt.handle_event(InputEvent::Close, 0);
    rt.handle_event(InputEvent::MouseScroll { ticks: 10 }, 0);
    rt.handle_event(resize(800, 600), 0);
    let d = rt.handle_event(InputEvent::Key { key: KeyCode::W, pressed: true }, 1000);
    assert_eq!(d, Displacement { forward: 0, right: 0 });
    assert_eq!(rt.camera().fov_y(), 45000);
    assert_eq!(rt.apply_resize(), None);
    assert_eq!(rt.targets().surface(), extent(1280, 720));
}

#[test]
fn pointer_up_tilts_view_up() {
    let mut rt = running(1280, 720);
    rt.handle_event(InputEvent::MouseMotion { dx: 0, dy: -10 }, 0);
    assert_eq!(rt.camera().pitch(), 1000);
    rt.handle_event(InputEvent::MouseMotion { dx: 5, dy: 0 }, 0);
    assert_eq!(rt.camera().yaw(), -89500);
    rt.handle_event(InputEvent::MouseMotion { dx: 0, dy: i32::MIN }, 0);
    assert_eq!(rt.camera().pitch(), 89000);
}

#[test]
fn scroll_zooms() {
    let mut rt = running(1280, 720);
    rt.handle_event(InputEvent::MouseScroll { ticks: 5 }, 0);
    assert_eq!(rt.camera().fov_y(), 40000);
    rt.handle_event(InputEvent::MouseScroll { ticks: 50 }, 0);
    assert_eq!(rt.camera().fov_y(), 1000);
}

#[test]
fn movement_keys_give_displacements() {
    let mut rt = running(1280, 720);
    let w = rt.handle_event(InputEvent::Key { key: KeyCode::W, pressed: true }, 16_000);
    assert_eq!(w, Displacement { forward: 160_000_000, right: 0 });
    let s = rt.handle_event(InputEvent::Key { key: KeyCode::S, pressed: true }, 16_000);
    assert_eq!(s, Displacement { forward: -160_000_000, right: 0 });
    let a = rt.handle_event(InputEvent::Key { key: KeyCode::A, pressed: true }, 16_000);
    assert_eq!(a, Displacement { forward: 0, right: -160_000_000 });
    let d = rt.handle_event(InputEvent::Key { key: KeyCode::D, pressed: true }, 16_000);
    assert_eq!(d, Displacement { forward: 0, right: 160_000_000 });
    let released = rt.handle_event(InputEvent::Key { key: KeyCode::W, pressed: false }, 16_000);
    assert_eq!(released, Displacement { forward: 0, right: 0 });
    let other = rt.handle_event(InputEvent::Key { key: KeyCode::Other, pressed: true }, 16_000);
    assert_eq!(other, Displacement { forward: 0, right: 0 });
    let no_time = rt.handle_event(InputEvent::Key { key: KeyCode::W, pressed: true }, 0);
    assert_eq!(no_time, Displacement { forward: 0, right: 0 });
}
