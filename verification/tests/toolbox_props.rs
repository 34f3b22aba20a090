//! The transform utilities and the heading animation model.

use gloom::fixed::FX_ONE;
use gloom::mat::{homog, mat_vec4, vec3};
use gloom::toolbox::{
    get_angular_error, movement_animation, rotate_around, scale_around, simple_heading_animation,
    to_homogeneous, ALTITUDE_FX,
};
use gloom::trig::{PI_FX, TWO_PI_FX};

fn close(a: i64, b: i64, tol: i64) -> bool {
    (a - b).abs() <= tol
}

#[test]
fn rotating_about_a_pivot_fixes_the_pivot() {
    let pivots = [
        vec3(0, 0, 0),
        vec3(3 * FX_ONE, -2 * FX_ONE, 5 * FX_ONE),
        vec3(-400 * FX_ONE, 20 * FX_ONE, 7),
    ];
    let angle_sets = [
        vec3(0, 0, 0),
        vec3(12345, -54321, 424242),
        vec3(PI_FX, TWO_PI_FX, -PI_FX),
    ];
    for pivot in pivots.iter() {
        for angles in angle_sets.iter() {
            let m = rotate_around(angles, pivot);
            let hp = homog(pivot);
            assert_eq!(mat_vec4(&m, &hp), hp);
        }
    }
}

#[test]
fn scaling_about_a_pivot_fixes_the_pivot() {
    let pivot = vec3(2 * FX_ONE, 3 * FX_ONE, -4 * FX_ONE);
    let factors = vec3(3 * FX_ONE, FX_ONE / 2, 2 * FX_ONE);
    let m = scale_around(&factors, &pivot);
    let hp = to_homogeneous(&pivot);
    assert_eq!(mat_vec4(&m, &hp), hp);
}

#[test]
fn angular_error_zero_at_zero() {
    assert_eq!(get_angular_error(0, 0), 0);
}

#[test]
fn angular_error_on_mirrored_pair_is_zero() {
    // 0.1 against 2*pi - 0.1: the two agree once the camera winding is
    // reversed.
    assert_eq!(get_angular_error(6554, TWO_PI_FX - 6554), 0);
}

#[test]
fn angular_error_equal_small_angles() {
    // With the reversed-winding convention, equal small angles leave
    // twice the angle as error (0.2 radians here), not zero.
    assert_eq!(get_angular_error(6554, 6554), 13108);
}

#[test]
fn angular_error_is_symmetric_and_bounded() {
    let samples = [
        (0i64, 0i64),
        (6554, 6554),
        (PI_FX, PI_FX),
        (TWO_PI_FX, 0),
        (-TWO_PI_FX, TWO_PI_FX),
        (123456, 400000),
    ];
    for (a, b) in samples.iter() {
        let e = get_angular_error(*a, *b);
        assert!(-PI_FX <= e && e <= PI_FX);
        if 0 <= *a && *a <= TWO_PI_FX {
            assert_eq!(e, get_angular_error(*b, *a));
        }
    }
}

#[test]
fn idle_path_is_deterministic() {
    let a = simple_heading_animation(5 * FX_ONE);
    let b = simple_heading_animation(5 * FX_ONE);
    assert_eq!(a, b);
}

#[test]
fn idle_path_altitude_and_yaw_range() {
    for t in [0i64, FX_ONE, PI_FX, TWO_PI_FX, 100 * FX_ONE] {
        let h = simple_heading_animation(t);
        assert_eq!(h.y, ALTITUDE_FX);
        assert!(0 <= h.yaw && h.yaw <= TWO_PI_FX);
    }
}

#[test]
fn idle_path_is_continuous() {
    // A small time step moves the pose only a little; sampled where the
    // path bends most.
    let eps: i64 = 655;
    for t in [0i64, PI_FX, TWO_PI_FX] {
        let h1 = simple_heading_animation(t);
        let h2 = simple_heading_animation(t + eps);
        assert!(close(h1.x, h2.x, FX_ONE));
        assert!(close(h1.z, h2.z, 2 * FX_ONE));
        assert!(close(h1.roll, h2.roll, 6554));
        assert!(close(h1.pitch, h2.pitch, 6554));
        assert!(close(h1.yaw, h2.yaw, 6554));
    }
}

#[test]
fn piloted_pose_integrates_position() {
    let speed = vec3(FX_ONE, 2 * FX_ONE, -FX_ONE);
    let pos = vec3(10 * FX_ONE, 20 * FX_ONE, 30 * FX_ONE);
    let rot = vec3(0, 0, 0);
    let cam = vec3(0, 0, 0);
    let h = movement_animation(&speed, &pos, &rot, &cam);
    assert_eq!(h.x, 11 * FX_ONE);
    assert_eq!(h.y, 22 * FX_ONE);
    assert_eq!(h.z, 29 * FX_ONE);
}

#[test]
fn piloted_bank_and_pitch_are_capped() {
    let speed = vec3(gloom::controls::MAX_SPEED, 0, gloom::controls::MAX_SPEED);
    let pos = vec3(0, 0, 0);
    let rot = vec3(0, 0, 0);
    let cam = vec3(0, 0, 0);
    let h = movement_animation(&speed, &pos, &rot, &cam);
    assert!(h.roll.abs() <= gloom::controls::MAX_ANGLE);
    assert!(h.pitch.abs() <= gloom::controls::MAX_ANGLE);
}

#[test]
fn piloted_yaw_stays_within_one_turn() {
    let speed = vec3(0, 0, 0);
    let pos = vec3(0, 0, 0);
    let rot = vec3(0, 300000, 0);
    let cam = vec3(0, 100000, 0);
    let h = movement_animation(&speed, &pos, &rot, &cam);
    assert!(-TWO_PI_FX < h.yaw && h.yaw < TWO_PI_FX);
}

#[test]
fn idle_rotors_are_parked() {
    let h = simple_heading_animation(7 * FX_ONE);
    assert_eq!(h.top_rotor, 0);
    assert_eq!(h.rear_rotor, 0);
}
