//! Scenario tests for the camera: yaw wrapping, pitch clamping, the
//! controller's event handling, and the fixed-point helpers.

use cubeshadow::camera::{Camera, CameraBasis, CameraController, InputEvent, MoveDirection};
use cubeshadow::math::{clamp_i64, div_trunc, sin_mdeg, wrap_mdeg, Vec3};

fn test_camera() -> Camera {
    Camera::new(Vec3 { x: 0, y: 0, z: 0 }, 0, 0, 55000, 1280, 720)
}

fn zero_basis() -> CameraBasis {
    CameraBasis {
        forward: Vec3 { x: 1000, y: 0, z: 0 },
        right: Vec3 { x: 0, y: 0, z: 1000 },
        up: Vec3 { x: 0, y: 1000, z: 0 },
    }
}

#[test]
fn wrap_reduces_into_full_turn() {
    assert_eq!(wrap_mdeg(0), 0);
    assert_eq!(wrap_mdeg(359999), 359999);
    assert_eq!(wrap_mdeg(360000), 0);
    assert_eq!(wrap_mdeg(440000), 80000);
    assert_eq!(wrap_mdeg(-90000), 270000);
    assert_eq!(wrap_mdeg(-720000), 0);
}

#[test]
fn sine_hits_exact_cardinal_values() {
    assert_eq!(sin_mdeg(0), 0);
    assert_eq!(sin_mdeg(90000), 1000);
    assert_eq!(sin_mdeg(180000), 0);
    assert_eq!(sin_mdeg(270000), -1000);
    assert_eq!(sin_mdeg(360000), 0);
    for a in [-1000000i64, -555, 0, 12345, 777777, 1000000000] {
        let s = sin_mdeg(a);
        assert!(-1000 <= s && s <= 1000);
    }
}

#[test]
fn truncating_division_rounds_toward_zero() {
    assert_eq!(div_trunc(7, 2), 3);
    assert_eq!(div_trunc(-7, 2), -3);
    assert_eq!(div_trunc(6, 3), 2);
    assert_eq!(div_trunc(-6, 3), -2);
    assert_eq!(clamp_i64(5, -3, 3), 3);
    assert_eq!(clamp_i64(-5, -3, 3), -3);
    assert_eq!(clamp_i64(1, -3, 3), 1);
}

#[test]
fn yaw_wraps_after_large_turn() {
    let mut cam = test_camera();
    let mut ctl = CameraController::new(400000, 1000);
    // 20000 counts at sensitivity 1.0 turn 22 millidegrees each:
    // 440 degrees in all, which wraps to 80.
    ctl.process_events(&InputEvent::MouseDelta { dx: 20000, dy: 0 });
    cam.apply_look(&ctl);
    assert_eq!(cam.yaw_mdeg, 80000);
    assert_eq!(cam.pitch_mdeg, 0);
}

#[test]
fn pitch_clamps_at_both_limits() {
    let mut cam = test_camera();
    let mut ctl = CameraController::new(400000, 1000);
    ctl.process_events(&InputEvent::MouseDelta { dx: 0, dy: 20000 });
    cam.apply_look(&ctl);
    assert_eq!(cam.pitch_mdeg, -89000);
    ctl.reset(false);
    ctl.process_events(&InputEvent::MouseDelta { dx: 0, dy: -20000 });
    ctl.process_events(&InputEvent::MouseDelta { dx: 0, dy: -20000 });
    cam.apply_look(&ctl);
    assert_eq!(cam.pitch_mdeg, 89000);
    assert_eq!(cam.yaw_mdeg, 0);
}

#[test]
fn movement_follows_held_keys_and_scales_with_time() {
    let mut cam = test_camera();
    let mut ctl = CameraController::new(400000, 2000);
    ctl.process_events(&InputEvent::Move { dir: MoveDirection::Forward, pressed: true });
    // Forward is the x axis of the supplied frame: 400 units/s over
    // 16 ms moves 6.4 units, i.e. 6400 milli.
    cam.apply_move(16, &ctl, &zero_basis());
    assert_eq!(cam.position, Vec3 { x: 6400, y: 0, z: 0 });
    // Releasing the key stops the movement.
    ctl.process_events(&InputEvent::Move { dir: MoveDirection::Forward, pressed: false });
    cam.apply_move(16, &ctl, &zero_basis());
    assert_eq!(cam.position, Vec3 { x: 6400, y: 0, z: 0 });
}

#[test]
fn reset_clears_one_shot_deltas_and_keeps_held_keys() {
    let mut ctl = CameraController::new(400000, 2000);
    ctl.process_events(&InputEvent::Move { dir: MoveDirection::Up, pressed: true });
    ctl.process_events(&InputEvent::MouseDelta { dx: 11, dy: -7 });
    ctl.reset(false);
    assert_eq!(ctl.deltax, 0);
    assert_eq!(ctl.deltay, 0);
    assert_eq!(ctl.move_up, 1000);
    ctl.reset(true);
    assert_eq!(ctl.move_up, 0);
}

#[test]
fn scroll_doubles_and_halves_speed_within_bounds() {
    let mut ctl = CameraController::new(400000, 2000);
    assert!(ctl.process_events(&InputEvent::SpeedScroll { increase: true }));
    assert_eq!(ctl.speed_milli, 800000);
    assert!(ctl.process_events(&InputEvent::SpeedScroll { increase: false }));
    assert_eq!(ctl.speed_milli, 400000);
    let mut slow = CameraController::new(1, 2000);
    slow.process_events(&InputEvent::SpeedScroll { increase: false });
    assert_eq!(slow.speed_milli, 1);
    let mut fast = CameraController::new(10000000, 2000);
    fast.process_events(&InputEvent::SpeedScroll { increase: true });
    assert_eq!(fast.speed_milli, 10000000);
}

#[test]
fn unrelated_events_are_not_handled() {
    let mut ctl = CameraController::new(400000, 2000);
    let before = ctl;
    assert!(!ctl.process_events(&InputEvent::Other));
    assert_eq!(ctl, before);
}

#[test]
fn mouse_accumulation_is_clamped() {
    let mut ctl = CameraController::new(400000, 2000);
    for _ in 0..20 {
        ctl.process_events(&InputEvent::MouseDelta { dx: 100000, dy: -100000 });
    }
    assert_eq!(ctl.deltax, 1000000);
    assert_eq!(ctl.deltay, -1000000);
}
