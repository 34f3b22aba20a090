//! Camera controller behavior: orientation bounds, velocity clamping,
//! and the no-input frame.

use gloom::controls::{Controls, Key, MAX_SPEED, MOVEMENT_SPEED, PITCH_LIMIT};
use gloom::fixed::FX_ONE;
use gloom::mat::{identity, vec3};
use gloom::trig::TWO_PI_FX;

const SCREEN: (u32, u32) = (800, 800);

#[test]
fn yaw_wraps_into_one_turn() {
    let mut c = Controls::new();
    let pivot = vec3(0, 0, 0);
    // A huge horizontal pointer delta spins the yaw far past a full turn.
    for _ in 0..5 {
        c.handle_mouse(FX_ONE, &pivot, (500 * FX_ONE, 0), SCREEN);
        assert!(0 <= c.rotation.y && c.rotation.y < TWO_PI_FX);
    }
    for _ in 0..5 {
        c.handle_mouse(FX_ONE, &pivot, (-900 * FX_ONE, 0), SCREEN);
        assert!(0 <= c.rotation.y && c.rotation.y < TWO_PI_FX);
    }
}

#[test]
fn pitch_clamps_short_of_vertical() {
    let mut c = Controls::new();
    let pivot = vec3(0, 0, 0);
    for _ in 0..5 {
        c.handle_mouse(FX_ONE, &pivot, (0, 2000 * FX_ONE), SCREEN);
        assert!(-PITCH_LIMIT <= c.rotation.x && c.rotation.x <= PITCH_LIMIT);
    }
    assert_eq!(c.rotation.x, PITCH_LIMIT);
    for _ in 0..5 {
        c.handle_mouse(FX_ONE, &pivot, (0, -2000 * FX_ONE), SCREEN);
        assert!(-PITCH_LIMIT <= c.rotation.x && c.rotation.x <= PITCH_LIMIT);
    }
    assert_eq!(c.rotation.x, -PITCH_LIMIT);
}

#[test]
fn velocity_components_stay_clamped() {
    let mut c = Controls::new();
    let pivot = vec3(0, 0, 0);
    let keys: Vec<Key> = vec![Key::W, Key::D, Key::Space, Key::LShift];
    for _ in 0..20 {
        c.handle_keyboard_helicopter(FX_ONE, &pivot, &keys);
        assert!(-MAX_SPEED <= c.speed.x && c.speed.x <= MAX_SPEED);
        assert!(-MAX_SPEED <= c.speed.y && c.speed.y <= MAX_SPEED);
        assert!(-MAX_SPEED <= c.speed.z && c.speed.z <= MAX_SPEED);
    }
    // After twenty sprinting seconds the vertical component sits at the cap.
    assert_eq!(c.speed.y, MAX_SPEED);
}

#[test]
fn no_input_frame_leaves_camera_unchanged() {
    let mut c = Controls::new();
    let pivot = vec3(0, 0, 0);
    let before_pos = c.position;
    let before_rot = c.rotation;
    c.handle_mouse(FX_ONE, &pivot, (0, 0), SCREEN);
    let keys: Vec<Key> = Vec::new();
    let m = identity();
    c.handle_keyboard(FX_ONE, &m, &keys);
    assert_eq!(c.position, before_pos);
    assert_eq!(c.rotation, before_rot);
}

#[test]
fn vertical_movement_uses_world_up() {
    let mut c = Controls::new();
    let before_y = c.position.y;
    let keys: Vec<Key> = vec![Key::Space];
    let m = identity();
    c.handle_keyboard(FX_ONE, &m, &keys);
    // One second at full speed climbs exactly MOVEMENT_SPEED units.
    assert_eq!(c.position.y - before_y, MOVEMENT_SPEED);
    assert_eq!(c.position.x, 0);
}

#[test]
fn sprint_doubles_movement() {
    let mut a = Controls::new();
    let mut b = Controls::new();
    let m = identity();
    a.handle_keyboard(FX_ONE, &m, &vec![Key::Space]);
    b.handle_keyboard(FX_ONE, &m, &vec![Key::Space, Key::LShift]);
    assert_eq!(b.position.y, 2 * a.position.y);
}

#[test]
fn forward_movement_is_camera_relative() {
    let mut c = Controls::new();
    let m = identity();
    let before = c.position;
    c.handle_keyboard(FX_ONE, &m, &vec![Key::W]);
    // W moves against the local Z axis; under the identity orientation
    // that is straight ahead in world space.
    assert_eq!(c.position.z, before.z - MOVEMENT_SPEED);
}

#[test]
fn position_accessors_round_trip() {
    let mut c = Controls::new();
    let p = vec3(7 * FX_ONE, -3 * FX_ONE, FX_ONE);
    c.set_position(p);
    assert_eq!(c.get_position(), p);
}
