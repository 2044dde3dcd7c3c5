//! Keyboard-driven movement.
//!
//! Four key states (forward, back, left, right) give a direction whose
//! components lie in `{-1, 0, 1}`. The direction is normalized to a
//! unit vector held in milli-units per axis — `1000` on a single axis,
//! `707` per axis on a diagonal (the milli-unit value of `1/sqrt(2)`) —
//! then scaled by the player speed and the elapsed time. A milli-unit
//! direction times a speed in units per second times a time in
//! milliseconds is exactly a displacement in micro-units.

use vstd::prelude::*;
use crate::vec3::Vec3Fx;

verus! {

/// Player speed, in world units per second.
pub const PLAYER_SPEED: i64 = 5;

/// Milli-units of a unit direction aligned with one axis.
pub const AXIS_MILLI: i64 = 1000;

/// Milli-units per axis of a unit direction on a diagonal: `1/sqrt(2)`
/// rounded to the nearest milli-unit.
pub const DIAG_MILLI: i64 = 707;

/// The pressed state of the four movement keys.
#[derive(Clone, Copy, Debug, PartialEq, Eq, Structural)]
pub struct KeyState {
    /// Move forward (toward negative z).
    pub forward: bool,
    /// Move back (toward positive z).
    pub back: bool,
    /// Move left (toward negative x).
    pub left: bool,
    /// Move right (toward positive x).
    pub right: bool,
}

/// The x component of the raw direction: right minus left.
pub open spec fn dir_x(k: KeyState) -> int {
    (if k.right { 1int } else { 0int }) - (if k.left { 1int } else { 0int })
}

/// The z component of the raw direction: back minus forward.
pub open spec fn dir_z(k: KeyState) -> int {
    (if k.back { 1int } else { 0int }) - (if k.forward { 1int } else { 0int })
}

/// One axis of the normalized direction, in milli-units, for a raw
/// direction whose components lie in `{-1, 0, 1}`: zero stays zero, a
/// component alone on its axis has full length, and a diagonal splits
/// the unit length evenly between the two axes.
pub open spec fn norm_axis(c: int, other: int) -> int {
    if c == 0 {
        0
    } else if other == 0 {
        AXIS_MILLI * c
    } else {
        DIAG_MILLI * c
    }
}

/// The x displacement, in micro-units, of one movement step.
pub open spec fn disp_x(k: KeyState, dt_ms: u32) -> int {
    norm_axis(dir_x(k), dir_z(k)) * PLAYER_SPEED * dt_ms
}

/// The z displacement, in micro-units, of one movement step.
pub open spec fn disp_z(k: KeyState, dt_ms: u32) -> int {
    norm_axis(dir_z(k), dir_x(k)) * PLAYER_SPEED * dt_ms
}

/// The raw direction the keys ask for, `(x, z)`, each in `{-1, 0, 1}`.
/// Opposite keys cancel.
pub fn direction(k: &KeyState) -> (d: (i64, i64))
    ensures
        d.0 == dir_x(*k),
        d.1 == dir_z(*k),
{
    let mut dx: i64 = 0;
    let mut dz: i64 = 0;
    if k.forward {
        dz = dz - 1;
    }
    if k.back {
        dz = dz + 1;
    }
    if k.left {
        dx = dx - 1;
    }
    if k.right {
        dx = dx + 1;
    }
    (dx, dz)
}

/// Normalizes a raw direction to milli-units, axis by axis.
pub fn normalize_milli(dx: i64, dz: i64) -> (n: (i64, i64))
    requires
        -1 <= dx <= 1,
        -1 <= dz <= 1,
    ensures
        n.0 == norm_axis(dx as int, dz as int),
        n.1 == norm_axis(dz as int, dx as int),
{
    let nx: i64 = if dx == 0 {
        0
    } else if dz == 0 {
        AXIS_MILLI * dx
    } else {
        DIAG_MILLI * dx
    };
    let nz: i64 = if dz == 0 {
        0
    } else if dx == 0 {
        AXIS_MILLI * dz
    } else {
        DIAG_MILLI * dz
    };
    (nx, nz)
}

/// The displacement, in micro-units, that one movement step adds to the
/// player's position: the normalized direction scaled by the player
/// speed and the elapsed milliseconds. No key pressed, or only keys
/// that cancel, gives the zero displacement.
pub fn displacement(k: &KeyState, dt_ms: u32) -> (d: Vec3Fx)
    ensures
        d.x == disp_x(*k, dt_ms),
        d.y == 0,
        d.z == disp_z(*k, dt_ms),
{
    let (dx, dz) = direction(k);
    let (nx, nz) = normalize_milli(dx, dz);
    proof {
        assert(-AXIS_MILLI <= nx <= AXIS_MILLI);
        assert(-AXIS_MILLI <= nz <= AXIS_MILLI);
        assert(i64::MIN <= nx * PLAYER_SPEED * (dt_ms as i64) <= i64::MAX) by (nonlinear_arith)
            requires
                -AXIS_MILLI <= nx <= AXIS_MILLI,
                0 <= dt_ms <= u32::MAX,
        ;
        assert(i64::MIN <= nz * PLAYER_SPEED * (dt_ms as i64) <= i64::MAX) by (nonlinear_arith)
            requires
                -AXIS_MILLI <= nz <= AXIS_MILLI,
                0 <= dt_ms <= u32::MAX,
        ;
    }
    Vec3Fx { x: nx * PLAYER_SPEED * (dt_ms as i64), y: 0, z: nz * PLAYER_SPEED * (dt_ms as i64) }
}

/// Pressing the forward key alone moves toward negative z at the
/// player's speed: one step displaces z by exactly minus the speed
/// times the elapsed time (in micro-units, a full milli-unit direction
/// times the speed times the milliseconds), and leaves x alone.
pub proof fn lemma_forward_motion(dt_ms: u32)
    ensures
        disp_z(KeyState { forward: true, back: false, left: false, right: false }, dt_ms) == -(
        AXIS_MILLI * PLAYER_SPEED * dt_ms),
        disp_x(KeyState { forward: true, back: false, left: false, right: false }, dt_ms) == 0,
{
    let k = KeyState { forward: true, back: false, left: false, right: false };
    assert(norm_axis(dir_z(k), dir_x(k)) == -AXIS_MILLI);
    assert(norm_axis(dir_x(k), dir_z(k)) == 0);
    assert(disp_z(k, dt_ms) == -(AXIS_MILLI * PLAYER_SPEED * dt_ms)) by (nonlinear_arith)
        requires
            norm_axis(dir_z(k), dir_x(k)) == -AXIS_MILLI,
            disp_z(k, dt_ms) == norm_axis(dir_z(k), dir_x(k)) * PLAYER_SPEED * dt_ms,
    ;
    assert(disp_x(k, dt_ms) == 0) by (nonlinear_arith)
        requires
            norm_axis(dir_x(k), dir_z(k)) == 0,
            disp_x(k, dt_ms) == norm_axis(dir_x(k), dir_z(k)) * PLAYER_SPEED * dt_ms,
    ;
}

/// Keys that oppose each other cancel: when forward matches back and
/// left matches right, one movement step displaces nothing.
pub proof fn lemma_opposed_keys_cancel(k: KeyState, dt_ms: u32)
    requires
        k.forward == k.back,
        k.left == k.right,
    ensures
        disp_x(k, dt_ms) == 0,
        disp_z(k, dt_ms) == 0,
{
    assert(dir_x(k) == 0);
    assert(dir_z(k) == 0);
    assert(disp_x(k, dt_ms) == 0) by (nonlinear_arith)
        requires
            norm_axis(dir_x(k), dir_z(k)) == 0,
            disp_x(k, dt_ms) == norm_axis(dir_x(k), dir_z(k)) * PLAYER_SPEED * dt_ms,
    ;
    assert(disp_z(k, dt_ms) == 0) by (nonlinear_arith)
        requires
            norm_axis(dir_z(k), dir_x(k)) == 0,
            disp_z(k, dt_ms) == norm_axis(dir_z(k), dir_x(k)) * PLAYER_SPEED * dt_ms,
    ;
}

/// True when adding one movement step for `k` and `dt_ms` to `p` stays
/// within `i64` coordinates.
pub open spec fn step_fits(p: Vec3Fx, k: KeyState, dt_ms: u32) -> bool {
    &&& i64::MIN <= p.x + disp_x(k, dt_ms) <= i64::MAX
    &&& i64::MIN <= p.z + disp_z(k, dt_ms) <= i64::MAX
}

/// Moves a position by one movement step: the keyboard rule of the
/// per-frame player movement, with the y coordinate left alone.
pub fn move_step(pos: &mut Vec3Fx, k: &KeyState, dt_ms: u32)
    requires
        step_fits(*old(pos), *k, dt_ms),
    ensures
        final(pos).x == old(pos).x + disp_x(*k, dt_ms),
        final(pos).y == old(pos).y,
        final(pos).z == old(pos).z + disp_z(*k, dt_ms),
{
    let (dx, dz) = direction(k);
    if dx != 0 || dz != 0 {
        let d = displacement(k, dt_ms);
        pos.x = pos.x + d.x;
        pos.z = pos.z + d.z;
    } else {
        proof {
            assert(norm_axis(dir_x(*k), dir_z(*k)) == 0);
            assert(disp_x(*k, dt_ms) == 0) by (nonlinear_arith)
                requires
                    norm_axis(dir_x(*k), dir_z(*k)) == 0,
                    disp_x(*k, dt_ms) == norm_axis(dir_x(*k), dir_z(*k)) * PLAYER_SPEED * dt_ms,
            ;
            assert(disp_z(*k, dt_ms) == 0) by (nonlinear_arith)
                requires
                    norm_axis(dir_z(*k), dir_x(*k)) == 0,
                    disp_z(*k, dt_ms) == norm_axis(dir_z(*k), dir_x(*k)) * PLAYER_SPEED * dt_ms,
            ;
        }
    }
}

} // verus!
