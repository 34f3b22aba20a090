//! The camera/input controller.
//!
//! The controller owns the camera position, orientation and (in piloted
//! mode) velocity. Each frame the surrounding loop hands it a consumed
//! snapshot of the accumulated pointer delta, the window size and the
//! pressed-key set; the controller never touches shared state itself.
//! After an orientation update the pitch is always clamped inside
//! `[-PITCH_LIMIT, PITCH_LIMIT]` and the yaw wrapped into
//! `[0, TWO_PI_FX)`; after a piloted velocity update every velocity
//! component is clamped into `[-MAX_SPEED, MAX_SPEED]`.

use vstd::prelude::*;
use crate::fixed::{
    fx_add, fx_clamp, fx_div, fx_mul, fx_ok, fx_sub, lemma_tdiv_zero, lemma_trem_range, rem_trunc,
    spec_fx_add, spec_fx_clamp, spec_fx_div, spec_fx_mul, spec_fx_sub, tdiv, trem, FX_ONE,
};
use crate::mat::{
    homog, mat_mul, mat_vec4, spec_homog, spec_mat_mul, spec_mat_vec4, spec_translation,
    spec_vec3_add, spec_vec3_neg, spec_vec3_scale, spec_vec3_sub, spec_vec4_scale, spec_xyz,
    translation, vec3_add, vec3_neg, vec3_scale, vec3_sub, vec4_scale, wf_mat4, wf_vec3, xyz,
    Mat4, Vec3, Vec4,
};
use crate::toolbox::{rotate_around, spec_rotate_around};
use crate::trig::{HALF_PI_FX, PI_FX, TWO_PI_FX};
use vstd::arithmetic::div_mod::{lemma_mod_add_multiples_vanish, lemma_small_mod};

verus! {

/// Pointer sensitivity along the vertical screen axis (60).
pub const X_SENSITIVITY: i64 = 3932160;

/// Pointer sensitivity along the horizontal screen axis (60).
pub const Y_SENSITIVITY: i64 = 3932160;

/// Free-look movement speed (50 units per second).
pub const MOVEMENT_SPEED: i64 = 3276800;

/// Speed multiplier while the sprint key is held (2).
pub const SPRINT_MULTIPLIER: i64 = 131072;

/// Arrow-key orientation rate (7 radians per second).
pub const ARROW_SENSITIVITY: i64 = 458752;

/// Margin kept between the pitch and a straight-up or straight-down
/// orientation (0.1 radians), avoiding the gimbal flip.
pub const PITCH_EPS: i64 = 6554;

/// The pitch is clamped into `[-PITCH_LIMIT, PITCH_LIMIT]`.
pub const PITCH_LIMIT: i64 = HALF_PI_FX - PITCH_EPS;

/// Piloted-mode acceleration (10 units per second squared).
pub const ACCELERATION: i64 = 655360;

/// Largest bank/pitch angle the piloted animation commands (0.5 radians).
pub const MAX_ANGLE: i64 = 32768;

/// Largest speed magnitude per velocity component (25 units per second).
pub const MAX_SPEED: i64 = 1638400;

/// Initial camera distance from the origin (2 units along Z).
pub const CAMERA_START_Z: i64 = 131072;

/// A logical key the controller reacts to. The surrounding input loop
/// translates platform key events into these.
#[derive(Clone, Copy, Debug, PartialEq, Eq, Structural)]
pub enum Key {
    W,
    A,
    S,
    D,
    Space,
    LControl,
    LShift,
    Left,
    Right,
    Up,
    Down,
}

/// Camera state: position, Euler orientation, the fixed world axes, and
/// the piloted-mode velocity.
pub struct Controls {
    pub position: Vec3,
    pub rotation: Vec3,
    pub x_axis: Vec3,
    pub y_axis: Vec3,
    pub z_axis: Vec3,
    pub speed: Vec3,
}

/// Well-formed controller state: every field is a well-formed vector and
/// the axis fields hold the world unit axes.
pub open spec fn wf_controls(c: Controls) -> bool {
    wf_vec3(c.position) && wf_vec3(c.rotation) && wf_vec3(c.speed) && c.x_axis == (Vec3 {
        x: FX_ONE,
        y: 0,
        z: 0,
    }) && c.y_axis == (Vec3 { x: 0, y: FX_ONE, z: 0 }) && c.z_axis == (Vec3 {
        x: 0,
        y: 0,
        z: FX_ONE,
    })
}

/// Does a pressed-key snapshot contain the given key?
pub fn keys_contain(keys: &Vec<Key>, k: Key) -> (r: bool)
    ensures
        r == keys@.contains(k),
{
    let mut i: usize = 0;
    while i < keys.len()
        invariant
            0 <= i <= keys@.len(),
            forall|j: int| 0 <= j < i ==> keys@[j] != k,
        decreases keys@.len() - i,
    {
        if keys[i] == k {
            proof {
                assert(keys@[i as int] == k);
            }
            return true;
        }
        i += 1;
    }
    false
}

impl Controls {
    /// A controller looking down the negative Z axis from two units out.
    pub fn new() -> (r: Controls)
        ensures
            r.position == (Vec3 { x: 0, y: 0, z: CAMERA_START_Z }),
            r.rotation == (Vec3 { x: 0, y: 0, z: 0 }),
            r.speed == (Vec3 { x: 0, y: 0, z: 0 }),
            wf_controls(r),
    {
        Controls {
            position: Vec3 { x: 0, y: 0, z: CAMERA_START_Z },
            rotation: Vec3 { x: 0, y: 0, z: 0 },
            x_axis: Vec3 { x: FX_ONE, y: 0, z: 0 },
            y_axis: Vec3 { x: 0, y: FX_ONE, z: 0 },
            z_axis: Vec3 { x: 0, y: 0, z: FX_ONE },
            speed: Vec3 { x: 0, y: 0, z: 0 },
        }
    }

    /// The view transform: the orientation applied about the pivot, after
    /// moving the world opposite to the camera position.
    pub fn handle(&mut self, delta_time: i64, pivot: &Vec3) -> (r: Mat4)
        requires
            wf_controls(*old(self)),
            wf_vec3(*pivot),
        ensures
            *final(self) == *old(self),
            r == spec_mat_mul(
                spec_rotate_around(final(self).rotation, *pivot),
                spec_translation(spec_vec3_neg(final(self).position)),
            ),
            wf_mat4(r),
    {
        let _ = delta_time;
        let neg_position: Vec3 = vec3_neg(&self.position);
        let translation_m: Mat4 = translation(&neg_position);
        let rotation_m: Mat4 = rotate_around(&self.rotation, pivot);
        mat_mul(&rotation_m, &translation_m)
    }

    pub fn get_position(&self) -> (r: Vec3)
        ensures
            r == self.position,
    {
        self.position
    }

    pub fn set_position(&mut self, position: Vec3)
        ensures
            final(self).position == position,
            final(self).rotation == old(self).rotation,
            final(self).speed == old(self).speed,
            final(self).x_axis == old(self).x_axis,
            final(self).y_axis == old(self).y_axis,
            final(self).z_axis == old(self).z_axis,
    {
        self.position = position;
    }
}

/// The orientation produced by one pointer update: the scaled delta is
/// added, then the pitch is clamped and the yaw wrapped.
pub open spec fn spec_update_orientation(
    rot: Vec3,
    dx: i64,
    dy: i64,
    w: u32,
    h: u32,
    dt: i64,
) -> Vec3 {
    let pitch_add = spec_fx_mul(
        spec_fx_mul(spec_fx_mul(spec_fx_div(dy as int, h as int), PI_FX as int), dt as int),
        X_SENSITIVITY as int,
    );
    let yaw_add = spec_fx_mul(
        spec_fx_mul(spec_fx_mul(spec_fx_div(dx as int, w as int), PI_FX as int), dt as int),
        Y_SENSITIVITY as int,
    );
    let moved = spec_vec3_add(rot, Vec3 { x: pitch_add as i64, y: yaw_add as i64, z: 0 });
    let pitch = spec_fx_clamp(moved.x as int, -(PITCH_LIMIT as int), PITCH_LIMIT as int);
    let wrapped = trem(moved.y + TWO_PI_FX, TWO_PI_FX as int);
    let yaw_abs = if wrapped < 0 {
        -wrapped
    } else {
        wrapped
    };
    let yaw = if yaw_abs < TWO_PI_FX {
        yaw_abs
    } else {
        TWO_PI_FX as int
    };
    Vec3 { x: pitch as i64, y: yaw as i64, z: moved.z }
}

/// No input leaves the orientation untouched: a zero pointer delta maps
/// any in-range orientation to itself.
pub proof fn lemma_update_orientation_idle(rot: Vec3, w: u32, h: u32, dt: i64)
    requires
        wf_vec3(rot),
        -PITCH_LIMIT <= rot.x <= PITCH_LIMIT,
        0 <= rot.y < TWO_PI_FX,
        w > 0,
        h > 0,
    ensures
        spec_update_orientation(rot, 0, 0, w, h, dt) == rot,
{
    lemma_tdiv_zero(h as int);
    lemma_tdiv_zero(w as int);
    lemma_tdiv_zero(FX_ONE as int);
    assert(spec_fx_div(0, h as int) == 0);
    assert(spec_fx_div(0, w as int) == 0);
    assert(spec_fx_mul(0, PI_FX as int) == 0);
    assert(spec_fx_mul(0, dt as int) == 0);
    assert(spec_fx_mul(0, X_SENSITIVITY as int) == 0);
    assert(spec_fx_mul(0, Y_SENSITIVITY as int) == 0);
    let moved = spec_vec3_add(rot, Vec3 { x: 0, y: 0, z: 0 });
    assert(moved == rot);
    assert(spec_fx_clamp(rot.x as int, -(PITCH_LIMIT as int), PITCH_LIMIT as int) == rot.x);
    lemma_mod_add_multiples_vanish(rot.y as int, TWO_PI_FX as int);
    lemma_small_mod(rot.y as nat, TWO_PI_FX as nat);
    assert(trem(rot.y + TWO_PI_FX, TWO_PI_FX as int) == rot.y);
}

impl Controls {
    /// Consume one pointer-delta snapshot: accumulate the scaled delta
    /// into the orientation, clamp the pitch, wrap the yaw, and return the
    /// view rotation about the pivot. The caller resets the shared delta
    /// after handing it over, so each delta is consumed at most once.
    #[verifier::rlimit(50)]
    pub fn handle_mouse(
        &mut self,
        delta_time: i64,
        pivot: &Vec3,
        mouse_delta: (i64, i64),
        window_size: (u32, u32),
    ) -> (r: Mat4)
        requires
            wf_controls(*old(self)),
            wf_vec3(*pivot),
            fx_ok(mouse_delta.0),
            fx_ok(mouse_delta.1),
            fx_ok(delta_time),
            window_size.0 > 0,
            window_size.1 > 0,
        ensures
            final(self).rotation == spec_update_orientation(
                old(self).rotation,
                mouse_delta.0,
                mouse_delta.1,
                window_size.0,
                window_size.1,
                delta_time,
            ),
            final(self).position == old(self).position,
            final(self).speed == old(self).speed,
            final(self).x_axis == old(self).x_axis && final(self).y_axis == old(self).y_axis
                && final(self).z_axis == old(self).z_axis,
            wf_controls(*final(self)),
            -PITCH_LIMIT <= final(self).rotation.x <= PITCH_LIMIT,
            0 <= final(self).rotation.y < TWO_PI_FX,
            mouse_delta.0 == 0 && mouse_delta.1 == 0 && -PITCH_LIMIT <= old(self).rotation.x
                <= PITCH_LIMIT && 0 <= old(self).rotation.y < TWO_PI_FX ==> final(self).rotation
                == old(self).rotation,
            r == spec_rotate_around(final(self).rotation, *pivot),
            wf_mat4(r),
    {
        let h: i64 = window_size.1 as i64;
        let w: i64 = window_size.0 as i64;
        let pitch_add: i64 = fx_mul(
            fx_mul(fx_mul(fx_div(mouse_delta.1, h), PI_FX), delta_time),
            X_SENSITIVITY,
        );
        let yaw_add: i64 = fx_mul(
            fx_mul(fx_mul(fx_div(mouse_delta.0, w), PI_FX), delta_time),
            Y_SENSITIVITY,
        );
        let delta_vec: Vec3 = Vec3 { x: pitch_add, y: yaw_add, z: 0 };
        let moved: Vec3 = vec3_add(&self.rotation, &delta_vec);
        let pitch: i64 = fx_clamp(moved.x, -PITCH_LIMIT, PITCH_LIMIT);
        let wrapped: i64 = rem_trunc(moved.y + TWO_PI_FX, TWO_PI_FX);
        proof {
            lemma_trem_range((moved.y + TWO_PI_FX) as int, TWO_PI_FX as int);
        }
        let yaw_abs: i64 = if wrapped < 0 {
            -wrapped
        } else {
            wrapped
        };
        let yaw: i64 = if yaw_abs < TWO_PI_FX {
            yaw_abs
        } else {
            TWO_PI_FX
        };
        self.rotation = Vec3 { x: pitch, y: yaw, z: moved.z };
        proof {
            if mouse_delta.0 == 0 && mouse_delta.1 == 0 && -PITCH_LIMIT <= old(self).rotation.x
                <= PITCH_LIMIT && 0 <= old(self).rotation.y < TWO_PI_FX {
                lemma_update_orientation_idle(
                    old(self).rotation,
                    window_size.0,
                    window_size.1,
                    delta_time,
                );
            }
        }
        rotate_around(&self.rotation, pivot)
    }
}

/// The movement speed for one keyboard pass, doubled while sprint is held.
pub open spec fn spec_keyboard_speed(dt: i64, keys: Seq<Key>) -> int {
    let base = spec_fx_mul(MOVEMENT_SPEED as int, dt as int);
    if keys.contains(Key::LShift) {
        spec_fx_mul(base, SPRINT_MULTIPLIER as int)
    } else {
        base
    }
}

/// The acceleration for one piloted keyboard pass, doubled while sprint is
/// held.
pub open spec fn spec_heli_accel(dt: i64, keys: Seq<Key>) -> int {
    let base = spec_fx_mul(ACCELERATION as int, dt as int);
    if keys.contains(Key::LShift) {
        spec_fx_mul(base, SPRINT_MULTIPLIER as int)
    } else {
        base
    }
}

/// One step of the first keyboard pass: vertical movement along the world
/// up axis and arrow-key orientation changes.
pub open spec fn spec_nav_step(
    pos: Vec3,
    rot: Vec3,
    y_axis: Vec3,
    k: Key,
    ds: i64,
    dt: i64,
) -> (Vec3, Vec3) {
    match k {
        Key::Space => (spec_vec3_add(pos, spec_vec3_scale(y_axis, ds as int)), rot),
        Key::LControl => (spec_vec3_sub(pos, spec_vec3_scale(y_axis, ds as int)), rot),
        Key::Left => (
            pos,
            Vec3 {
                x: rot.x,
                y: spec_fx_sub(
                    rot.y as int,
                    spec_fx_mul(ARROW_SENSITIVITY as int, dt as int),
                ) as i64,
                z: rot.z,
            },
        ),
        Key::Right => (
            pos,
            Vec3 {
                x: rot.x,
                y: spec_fx_add(
                    rot.y as int,
                    spec_fx_mul(ARROW_SENSITIVITY as int, dt as int),
                ) as i64,
                z: rot.z,
            },
        ),
        Key::Up => (
            pos,
            Vec3 {
                x: spec_fx_sub(
                    rot.x as int,
                    spec_fx_mul(ARROW_SENSITIVITY as int, dt as int),
                ) as i64,
                y: rot.y,
                z: rot.z,
            },
        ),
        Key::Down => (
            pos,
            Vec3 {
                x: spec_fx_add(
                    rot.x as int,
                    spec_fx_mul(ARROW_SENSITIVITY as int, dt as int),
                ) as i64,
                y: rot.y,
                z: rot.z,
            },
        ),
        _ => (pos, rot),
    }
}

pub open spec fn spec_nav_fold(
    pos: Vec3,
    rot: Vec3,
    y_axis: Vec3,
    keys: Seq<Key>,
    ds: i64,
    dt: i64,
) -> (Vec3, Vec3)
    decreases keys.len(),
{
    if keys.len() == 0 {
        (pos, rot)
    } else {
        let step = spec_nav_step(pos, rot, y_axis, keys[0], ds, dt);
        spec_nav_fold(step.0, step.1, y_axis, keys.drop_first(), ds, dt)
    }
}

/// The camera-relative displacement for one held movement key: the axis,
/// scaled and taken through the orientation matrix.
pub open spec fn spec_axis_move(m: Mat4, axis: Vec3, ds: i64) -> Vec3 {
    spec_xyz(spec_mat_vec4(m, spec_vec4_scale(spec_homog(axis), ds as int)))
}

/// One step of the second keyboard pass: planar movement along the
/// camera-relative right and forward axes.
pub open spec fn spec_wasd_step(
    pos: Vec3,
    m: Mat4,
    x_axis: Vec3,
    z_axis: Vec3,
    k: Key,
    ds: i64,
) -> Vec3 {
    match k {
        Key::D => spec_vec3_add(pos, spec_axis_move(m, x_axis, ds)),
        Key::A => spec_vec3_sub(pos, spec_axis_move(m, x_axis, ds)),
        Key::S => spec_vec3_add(pos, spec_axis_move(m, z_axis, ds)),
        Key::W => spec_vec3_sub(pos, spec_axis_move(m, z_axis, ds)),
        _ => pos,
    }
}

pub open spec fn spec_wasd_fold(
    pos: Vec3,
    m: Mat4,
    x_axis: Vec3,
    z_axis: Vec3,
    keys: Seq<Key>,
    ds: i64,
) -> Vec3
    decreases keys.len(),
{
    if keys.len() == 0 {
        pos
    } else {
        spec_wasd_fold(
            spec_wasd_step(pos, m, x_axis, z_axis, keys[0], ds),
            m,
            x_axis,
            z_axis,
            keys.drop_first(),
            ds,
        )
    }
}

/// The whole free-look keyboard update: the vertical/arrow pass, then the
/// camera-relative movement pass.
pub open spec fn spec_handle_keyboard(c: Controls, dt: i64, m: Mat4, keys: Seq<Key>) -> Controls {
    let ds = spec_keyboard_speed(dt, keys) as i64;
    let nav = spec_nav_fold(c.position, c.rotation, c.y_axis, keys, ds, dt);
    let pos = spec_wasd_fold(nav.0, m, c.x_axis, c.z_axis, keys, ds);
    Controls {
        position: pos,
        rotation: nav.1,
        x_axis: c.x_axis,
        y_axis: c.y_axis,
        z_axis: c.z_axis,
        speed: c.speed,
    }
}

impl Controls {
    /// Move the camera for the held keys: vertically along the world up
    /// axis, and in the plane along the camera-relative axes given by the
    /// inverse orientation matrix. Returns the updated view translation.
    pub fn handle_keyboard(
        &mut self,
        delta_time: i64,
        negative_rotation_matrix: &Mat4,
        pressed_keys: &Vec<Key>,
    ) -> (r: Mat4)
        requires
            wf_controls(*old(self)),
            wf_mat4(*negative_rotation_matrix),
            fx_ok(delta_time),
        ensures
            *final(self) == spec_handle_keyboard(
                *old(self),
                delta_time,
                *negative_rotation_matrix,
                pressed_keys@,
            ),
            wf_controls(*final(self)),
            pressed_keys@.len() == 0 ==> *final(self) == *old(self),
            r == spec_translation(spec_vec3_neg(final(self).position)),
            wf_mat4(r),
    {
        let base_speed: i64 = fx_mul(MOVEMENT_SPEED, delta_time);
        let delta_speed: i64 = if keys_contain(pressed_keys, Key::LShift) {
            fx_mul(base_speed, SPRINT_MULTIPLIER)
        } else {
            base_speed
        };
        let ghost pos0 = self.position;
        let ghost rot0 = self.rotation;
        proof {
            assert(pressed_keys@.skip(0) =~= pressed_keys@);
        }
        let mut i: usize = 0;
        while i < pressed_keys.len()
            invariant
                0 <= i <= pressed_keys@.len(),
                wf_vec3(self.position) && wf_vec3(self.rotation),
                self.x_axis == old(self).x_axis && self.y_axis == old(self).y_axis
                    && self.z_axis == old(self).z_axis,
                self.speed == old(self).speed,
                wf_controls(*old(self)),
                fx_ok(delta_speed) && fx_ok(delta_time),
                pos0 == old(self).position && rot0 == old(self).rotation,
                spec_nav_fold(
                    self.position,
                    self.rotation,
                    self.y_axis,
                    pressed_keys@.skip(i as int),
                    delta_speed,
                    delta_time,
                ) == spec_nav_fold(pos0, rot0, old(self).y_axis, pressed_keys@, delta_speed, delta_time),
            decreases pressed_keys@.len() - i,
        {
            let k: Key = pressed_keys[i];
            let ghost pre_pos = self.position;
            let ghost pre_rot = self.rotation;
            match k {
                Key::Space => {
                    let d: Vec3 = vec3_scale(&self.y_axis, delta_speed);
                    self.position = vec3_add(&self.position, &d);
                },
                Key::LControl => {
                    let d: Vec3 = vec3_scale(&self.y_axis, delta_speed);
                    self.position = vec3_sub(&self.position, &d);
                },
                Key::Left => {
                    let dy: i64 = fx_mul(ARROW_SENSITIVITY, delta_time);
                    self.rotation = Vec3 {
                        x: self.rotation.x,
                        y: fx_sub(self.rotation.y, dy),
                        z: self.rotation.z,
                    };
                },
                Key::Right => {
                    let dy: i64 = fx_mul(ARROW_SENSITIVITY, delta_time);
                    self.rotation = Vec3 {
                        x: self.rotation.x,
                        y: fx_add(self.rotation.y, dy),
                        z: self.rotation.z,
                    };
                },
                Key::Up => {
                    let dx: i64 = fx_mul(ARROW_SENSITIVITY, delta_time);
                    self.rotation = Vec3 {
                        x: fx_sub(self.rotation.x, dx),
                        y: self.rotation.y,
                        z: self.rotation.z,
                    };
                },
                Key::Down => {
                    let dx: i64 = fx_mul(ARROW_SENSITIVITY, delta_time);
                    self.rotation = Vec3 {
                        x: fx_add(self.rotation.x, dx),
                        y: self.rotation.y,
                        z: self.rotation.z,
                    };
                },
                _ => {},
            }
            proof {
                assert(pressed_keys@.skip(i as int)[0] == pressed_keys@[i as int]);
                assert(pressed_keys@.skip(i as int).drop_first() =~= pressed_keys@.skip(
                    i as int + 1,
                ));
                assert((self.position, self.rotation) == spec_nav_step(
                    pre_pos,
                    pre_rot,
                    self.y_axis,
                    k,
                    delta_speed,
                    delta_time,
                ));
            }
            i += 1;
        }
        proof {
            assert(pressed_keys@.skip(pressed_keys@.len() as int) =~= Seq::<Key>::empty());
        }
        let ghost nav_pos = self.position;
        proof {
            assert(pressed_keys@.skip(0) =~= pressed_keys@);
        }
        let mut j: usize = 0;
        while j < pressed_keys.len()
            invariant
                0 <= j <= pressed_keys@.len(),
                wf_vec3(self.position),
                self.rotation == spec_nav_fold(
                    old(self).position,
                    old(self).rotation,
                    old(self).y_axis,
                    pressed_keys@,
                    delta_speed,
                    delta_time,
                ).1,
                self.x_axis == old(self).x_axis && self.y_axis == old(self).y_axis
                    && self.z_axis == old(self).z_axis,
                self.speed == old(self).speed,
                wf_controls(*old(self)),
                wf_mat4(*negative_rotation_matrix),
                fx_ok(delta_speed),
                spec_wasd_fold(
                    self.position,
                    *negative_rotation_matrix,
                    self.x_axis,
                    self.z_axis,
                    pressed_keys@.skip(j as int),
                    delta_speed,
                ) == spec_wasd_fold(
                    nav_pos,
                    *negative_rotation_matrix,
                    old(self).x_axis,
                    old(self).z_axis,
                    pressed_keys@,
                    delta_speed,
                ),
                nav_pos == spec_nav_fold(
                    old(self).position,
                    old(self).rotation,
                    old(self).y_axis,
                    pressed_keys@,
                    delta_speed,
                    delta_time,
                ).0,
            decreases pressed_keys@.len() - j,
        {
            let k: Key = pressed_keys[j];
            let ghost pre_pos = self.position;
            match k {
                Key::D => {
                    let scaled: Vec4 = vec4_scale(&homog(&self.x_axis), delta_speed);
                    let moved: Vec4 = mat_vec4(negative_rotation_matrix, &scaled);
                    self.position = vec3_add(&self.position, &xyz(&moved));
                },
                Key::A => {
                    let scaled: Vec4 = vec4_scale(&homog(&self.x_axis), delta_speed);
                    let moved: Vec4 = mat_vec4(negative_rotation_matrix, &scaled);
                    self.position = vec3_sub(&self.position, &xyz(&moved));
                },
                Key::S => {
                    let scaled: Vec4 = vec4_scale(&homog(&self.z_axis), delta_speed);
                    let moved: Vec4 = mat_vec4(negative_rotation_matrix, &scaled);
                    self.position = vec3_add(&self.position, &xyz(&moved));
                },
                Key::W => {
                    let scaled: Vec4 = vec4_scale(&homog(&self.z_axis), delta_speed);
                    let moved: Vec4 = mat_vec4(negative_rotation_matrix, &scaled);
                    self.position = vec3_sub(&self.position, &xyz(&moved));
                },
                _ => {},
            }
            proof {
                assert(pressed_keys@.skip(j as int)[0] == pressed_keys@[j as int]);
                assert(pressed_keys@.skip(j as int).drop_first() =~= pressed_keys@.skip(
                    j as int + 1,
                ));
                assert(self.position == spec_wasd_step(
                    pre_pos,
                    *negative_rotation_matrix,
                    self.x_axis,
                    self.z_axis,
                    k,
                    delta_speed,
                ));
            }
            j += 1;
        }
        proof {
            assert(pressed_keys@.skip(pressed_keys@.len() as int) =~= Seq::<Key>::empty());
            if pressed_keys@.len() == 0 {
                assert(*self == *old(self));
            }
        }
        let neg_position: Vec3 = vec3_neg(&self.position);
        translation(&neg_position)
    }
}

/// A frame with no held keys moves nothing: the free-look keyboard pass
/// over an empty key set is the identity on the controller.
pub proof fn lemma_handle_keyboard_no_keys(c: Controls, dt: i64, m: Mat4)
    ensures
        spec_handle_keyboard(c, dt, m, Seq::<Key>::empty()) == c,
{
}

/// One step of the first piloted pass: vertical acceleration and
/// arrow-key orientation changes.
pub open spec fn spec_heli_nav_step(
    spd: Vec3,
    rot: Vec3,
    k: Key,
    da: i64,
    dt: i64,
) -> (Vec3, Vec3) {
    match k {
        Key::Space => (
            Vec3 { x: spd.x, y: spec_fx_add(spd.y as int, da as int) as i64, z: spd.z },
            rot,
        ),
        Key::LControl => (
            Vec3 { x: spd.x, y: spec_fx_sub(spd.y as int, da as int) as i64, z: spd.z },
            rot,
        ),
        Key::Left => (
            spd,
            Vec3 {
                x: rot.x,
                y: spec_fx_sub(
                    rot.y as int,
                    spec_fx_mul(ARROW_SENSITIVITY as int, dt as int),
                ) as i64,
                z: rot.z,
            },
        ),
        Key::Right => (
            spd,
            Vec3 {
                x: rot.x,
                y: spec_fx_add(
                    rot.y as int,
                    spec_fx_mul(ARROW_SENSITIVITY as int, dt as int),
                ) as i64,
                z: rot.z,
            },
        ),
        Key::Up => (
            spd,
            Vec3 {
                x: spec_fx_sub(
                    rot.x as int,
                    spec_fx_mul(ARROW_SENSITIVITY as int, dt as int),
                ) as i64,
                y: rot.y,
                z: rot.z,
            },
        ),
        Key::Down => (
            spd,
            Vec3 {
                x: spec_fx_add(
                    rot.x as int,
                    spec_fx_mul(ARROW_SENSITIVITY as int, dt as int),
                ) as i64,
                y: rot.y,
                z: rot.z,
            },
        ),
        _ => (spd, rot),
    }
}

pub open spec fn spec_heli_nav_fold(
    spd: Vec3,
    rot: Vec3,
    keys: Seq<Key>,
    da: i64,
    dt: i64,
) -> (Vec3, Vec3)
    decreases keys.len(),
{
    if keys.len() == 0 {
        (spd, rot)
    } else {
        let step = spec_heli_nav_step(spd, rot, keys[0], da, dt);
        spec_heli_nav_fold(step.0, step.1, keys.drop_first(), da, dt)
    }
}

/// One step of the second piloted pass: acceleration along the
/// camera-relative right and forward axes.
pub open spec fn spec_heli_wasd_step(
    spd: Vec3,
    m: Mat4,
    x_axis: Vec3,
    z_axis: Vec3,
    k: Key,
    da: i64,
) -> Vec3 {
    match k {
        Key::D => spec_vec3_add(spd, spec_axis_move(m, x_axis, da)),
        Key::A => spec_vec3_sub(spd, spec_axis_move(m, x_axis, da)),
        Key::S => spec_vec3_add(spd, spec_axis_move(m, z_axis, da)),
        Key::W => spec_vec3_sub(spd, spec_axis_move(m, z_axis, da)),
        _ => spd,
    }
}

pub open spec fn spec_heli_wasd_fold(
    spd: Vec3,
    m: Mat4,
    x_axis: Vec3,
    z_axis: Vec3,
    keys: Seq<Key>,
    da: i64,
) -> Vec3
    decreases keys.len(),
{
    if keys.len() == 0 {
        spd
    } else {
        spec_heli_wasd_fold(
            spec_heli_wasd_step(spd, m, x_axis, z_axis, keys[0], da),
            m,
            x_axis,
            z_axis,
            keys.drop_first(),
            da,
        )
    }
}

/// Clamp each velocity component into `[-MAX_SPEED, MAX_SPEED]`.
pub open spec fn spec_clamp_speed(spd: Vec3) -> Vec3 {
    Vec3 {
        x: spec_fx_clamp(spd.x as int, -(MAX_SPEED as int), MAX_SPEED as int) as i64,
        y: spec_fx_clamp(spd.y as int, -(MAX_SPEED as int), MAX_SPEED as int) as i64,
        z: spec_fx_clamp(spd.z as int, -(MAX_SPEED as int), MAX_SPEED as int) as i64,
    }
}

/// The whole piloted keyboard update: both passes accelerate the velocity
/// (the second through the orientation about the pivot), and every
/// component is clamped at the end.
pub open spec fn spec_handle_keyboard_helicopter(
    c: Controls,
    dt: i64,
    pivot: Vec3,
    keys: Seq<Key>,
) -> Controls {
    let m = spec_rotate_around(c.rotation, pivot);
    let da = spec_heli_accel(dt, keys) as i64;
    let nav = spec_heli_nav_fold(c.speed, c.rotation, keys, da, dt);
    let spd = spec_heli_wasd_fold(nav.0, m, c.x_axis, c.z_axis, keys, da);
    Controls {
        position: c.position,
        rotation: nav.1,
        x_axis: c.x_axis,
        y_axis: c.y_axis,
        z_axis: c.z_axis,
        speed: spec_clamp_speed(spd),
    }
}

/// A frame with no held keys only re-clamps the velocity: with the
/// velocity already in range, the piloted keyboard pass changes nothing.
pub proof fn lemma_handle_keyboard_helicopter_no_keys(c: Controls, dt: i64, pivot: Vec3)
    ensures
        spec_handle_keyboard_helicopter(c, dt, pivot, Seq::<Key>::empty()).position == c.position,
        spec_handle_keyboard_helicopter(c, dt, pivot, Seq::<Key>::empty()).rotation == c.rotation,
        spec_handle_keyboard_helicopter(c, dt, pivot, Seq::<Key>::empty()).speed
            == spec_clamp_speed(c.speed),
{
}

impl Controls {
    /// Accumulate acceleration for the held keys into the velocity, along
    /// the camera-relative axes given by the orientation about the pivot,
    /// then clamp every velocity component into `[-MAX_SPEED, MAX_SPEED]`.
    /// The position is left alone; the heading animation integrates it.
    #[verifier::rlimit(100)]
    pub fn handle_keyboard_helicopter(
        &mut self,
        delta_time: i64,
        pivot: &Vec3,
        pressed_keys: &Vec<Key>,
    )
        requires
            wf_controls(*old(self)),
            wf_vec3(*pivot),
            fx_ok(delta_time),
        ensures
            *final(self) == spec_handle_keyboard_helicopter(
                *old(self),
                delta_time,
                *pivot,
                pressed_keys@,
            ),
            wf_controls(*final(self)),
            -MAX_SPEED <= final(self).speed.x <= MAX_SPEED,
            -MAX_SPEED <= final(self).speed.y <= MAX_SPEED,
            -MAX_SPEED <= final(self).speed.z <= MAX_SPEED,
            final(self).position == old(self).position,
            pressed_keys@.len() == 0 ==> final(self).rotation == old(self).rotation
                && final(self).speed == spec_clamp_speed(old(self).speed),
    {
        let camera_transform: Mat4 = rotate_around(&self.rotation, pivot);
        let base_accel: i64 = fx_mul(ACCELERATION, delta_time);
        let delta_accel: i64 = if keys_contain(pressed_keys, Key::LShift) {
            fx_mul(base_accel, SPRINT_MULTIPLIER)
        } else {
            base_accel
        };
        let ghost spd0 = self.speed;
        let ghost rot0 = self.rotation;
        proof {
            assert(pressed_keys@.skip(0) =~= pressed_keys@);
        }
        let mut i: usize = 0;
        while i < pressed_keys.len()
            invariant
                0 <= i <= pressed_keys@.len(),
                wf_vec3(self.speed) && wf_vec3(self.rotation),
                self.x_axis == old(self).x_axis && self.y_axis == old(self).y_axis
                    && self.z_axis == old(self).z_axis,
                self.position == old(self).position,
                wf_controls(*old(self)),
                fx_ok(delta_accel) && fx_ok(delta_time),
                spd0 == old(self).speed && rot0 == old(self).rotation,
                spec_heli_nav_fold(
                    self.speed,
                    self.rotation,
                    pressed_keys@.skip(i as int),
                    delta_accel,
                    delta_time,
                ) == spec_heli_nav_fold(spd0, rot0, pressed_keys@, delta_accel, delta_time),
            decreases pressed_keys@.len() - i,
        {
            let k: Key = pressed_keys[i];
            let ghost pre_spd = self.speed;
            let ghost pre_rot = self.rotation;
            match k {
                Key::Space => {
                    self.speed = Vec3 {
                        x: self.speed.x,
                        y: fx_add(self.speed.y, delta_accel),
                        z: self.speed.z,
                    };
                },
                Key::LControl => {
                    self.speed = Vec3 {
                        x: self.speed.x,
                        y: fx_sub(self.speed.y, delta_accel),
                        z: self.speed.z,
                    };
                },
                Key::Left => {
                    let dy: i64 = fx_mul(ARROW_SENSITIVITY, delta_time);
                    self.rotation = Vec3 {
                        x: self.rotation.x,
                        y: fx_sub(self.rotation.y, dy),
                        z: self.rotation.z,
                    };
                },
                Key::Right => {
                    let dy: i64 = fx_mul(ARROW_SENSITIVITY, delta_time);
                    self.rotation = Vec3 {
                        x: self.rotation.x,
                        y: fx_add(self.rotation.y, dy),
                        z: self.rotation.z,
                    };
                },
                Key::Up => {
                    let dx: i64 = fx_mul(ARROW_SENSITIVITY, delta_time);
                    self.rotation = Vec3 {
                        x: fx_sub(self.rotation.x, dx),
                        y: self.rotation.y,
                        z: self.rotation.z,
                    };
                },
                Key::Down => {
                    let dx: i64 = fx_mul(ARROW_SENSITIVITY, delta_time);
                    self.rotation = Vec3 {
                        x: fx_add(self.rotation.x, dx),
                        y: self.rotation.y,
                        z: self.rotation.z,
                    };
                },
                _ => {},
            }
            proof {
                assert(pressed_keys@.skip(i as int)[0] == pressed_keys@[i as int]);
                assert(pressed_keys@.skip(i as int).drop_first() =~= pressed_keys@.skip(
                    i as int + 1,
                ));
                assert((self.speed, self.rotation) == spec_heli_nav_step(
                    pre_spd,
                    pre_rot,
                    k,
                    delta_accel,
                    delta_time,
                ));
            }
            i += 1;
        }
        proof {
            assert(pressed_keys@.skip(pressed_keys@.len() as int) =~= Seq::<Key>::empty());
            assert(pressed_keys@.skip(0) =~= pressed_keys@);
        }
        let ghost nav_spd = self.speed;
        let mut j: usize = 0;
        while j < pressed_keys.len()
            invariant
                0 <= j <= pressed_keys@.len(),
                wf_vec3(self.speed),
                self.rotation == spec_heli_nav_fold(
                    old(self).speed,
                    old(self).rotation,
                    pressed_keys@,
                    delta_accel,
                    delta_time,
                ).1,
                self.x_axis == old(self).x_axis && self.y_axis == old(self).y_axis
                    && self.z_axis == old(self).z_axis,
                self.position == old(self).position,
                wf_controls(*old(self)),
                wf_mat4(camera_transform),
                camera_transform == spec_rotate_around(old(self).rotation, *pivot),
                fx_ok(delta_accel),
                spec_heli_wasd_fold(
                    self.speed,
                    camera_transform,
                    self.x_axis,
                    self.z_axis,
                    pressed_keys@.skip(j as int),
                    delta_accel,
                ) == spec_heli_wasd_fold(
                    nav_spd,
                    camera_transform,
                    old(self).x_axis,
                    old(self).z_axis,
                    pressed_keys@,
                    delta_accel,
                ),
                nav_spd == spec_heli_nav_fold(
                    old(self).speed,
                    old(self).rotation,
                    pressed_keys@,
                    delta_accel,
                    delta_time,
                ).0,
            decreases pressed_keys@.len() - j,
        {
            let k: Key = pressed_keys[j];
            let ghost pre_spd = self.speed;
            match k {
                Key::D => {
                    let scaled: Vec4 = vec4_scale(&homog(&self.x_axis), delta_accel);
                    let moved: Vec4 = mat_vec4(&camera_transform, &scaled);
                    self.speed = vec3_add(&self.speed, &xyz(&moved));
                },
                Key::A => {
                    let scaled: Vec4 = vec4_scale(&homog(&self.x_axis), delta_accel);
                    let moved: Vec4 = mat_vec4(&camera_transform, &scaled);
                    self.speed = vec3_sub(&self.speed, &xyz(&moved));
                },
                Key::S => {
                    let scaled: Vec4 = vec4_scale(&homog(&self.z_axis), delta_accel);
                    let moved: Vec4 = mat_vec4(&camera_transform, &scaled);
                    self.speed = vec3_add(&self.speed, &xyz(&moved));
                },
                Key::W => {
                    let scaled: Vec4 = vec4_scale(&homog(&self.z_axis), delta_accel);
                    let moved: Vec4 = mat_vec4(&camera_transform, &scaled);
                    self.speed = vec3_sub(&self.speed, &xyz(&moved));
                },
                _ => {},
            }
            proof {
                assert(pressed_keys@.skip(j as int)[0] == pressed_keys@[j as int]);
                assert(pressed_keys@.skip(j as int).drop_first() =~= pressed_keys@.skip(
                    j as int + 1,
                ));
                assert(self.speed == spec_heli_wasd_step(
                    pre_spd,
                    camera_transform,
                    self.x_axis,
                    self.z_axis,
                    k,
                    delta_accel,
                ));
            }
            j += 1;
        }
        proof {
            assert(pressed_keys@.skip(pressed_keys@.len() as int) =~= Seq::<Key>::empty());
        }
        self.speed = Vec3 {
            x: fx_clamp(self.speed.x, -MAX_SPEED, MAX_SPEED),
            y: fx_clamp(self.speed.y, -MAX_SPEED, MAX_SPEED),
            z: fx_clamp(self.speed.z, -MAX_SPEED, MAX_SPEED),
        };
    }
}

} // verus!
