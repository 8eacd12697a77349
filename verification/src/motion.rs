//! The motion resolver: turns release edges of the forward and backward
//! actions into a one-shot step displacement along the entity's facing, and
//! carries the optional continuous-motion path.
//!
//! Positions and directions are fixed-point integer vectors in the host's
//! distance unit. The host rotates the entity's local forward axis into
//! world space (a rotation of a single constant vector, done in its own
//! arithmetic) and hands the result in; everything decided here is exact.

use vstd::prelude::*;
use crate::num::{sat_add_i64, sat_i64};
use crate::action::Action;
use crate::tracker::{ActionState, TrackerView, spec_just_released};

verus! {

/// Marks the controlled entity in the host's entity store.
pub struct Player {}

/// A fixed-point vector in world space.
#[derive(Clone, Copy, PartialEq, Eq, Structural, Debug)]
pub struct Vec3Fixed {
    pub x: i64,
    pub y: i64,
    pub z: i64,
}

/// The largest direction-component magnitude the continuous path accepts.
pub const DIRECTION_BOUND: i64 = 1000000000;

/// The longest frame duration, in milliseconds, the continuous path accepts.
pub const ELAPSED_BOUND: i64 = 1000000000;

impl Vec3Fixed {
    /// The origin, and the zero displacement.
    pub fn zero() -> (v: Vec3Fixed)
        ensures
            v.x == 0 && v.y == 0 && v.z == 0,
    {
        Vec3Fixed { x: 0, y: 0, z: 0 }
    }
}

/// The step scalar of one frame: +1 when the forward action was just
/// released, -1 when the backward action was just released, 0 otherwise
/// (both at once cancel). Release edges, not press edges or held state,
/// trigger the step: movement is a discrete step per key release.
pub open spec fn spec_step_scalar(v: TrackerView) -> int {
    (if spec_just_released(v, Action::MoveForward) {
        1int
    } else {
        0int
    }) - (if spec_just_released(v, Action::MoveBackward) {
        1int
    } else {
        0int
    })
}

/// On a frame with no release edge of the forward or backward action, the
/// resolver leaves the entity exactly where it was, whatever its facing.
pub proof fn lemma_no_release_no_motion(v: TrackerView, axis: Vec3Fixed, t: Vec3Fixed)
    requires
        !spec_just_released(v, Action::MoveForward),
        !spec_just_released(v, Action::MoveBackward),
    ensures
        spec_step_scalar(v) == 0,
        sat_i64(t.x + axis.x * spec_step_scalar(v)) == t.x,
        sat_i64(t.y + axis.y * spec_step_scalar(v)) == t.y,
        sat_i64(t.z + axis.z * spec_step_scalar(v)) == t.z,
{
    lemma_mul_unit(axis.x as int, spec_step_scalar(v));
    lemma_mul_unit(axis.y as int, spec_step_scalar(v));
    lemma_mul_unit(axis.z as int, spec_step_scalar(v));
}

/// The step scalar of the tracker's current frame.
pub fn step_scalar(s: &ActionState) -> (r: i64)
    requires
        s.wf(),
    ensures
        r as int == spec_step_scalar(s@),
        -1 <= r <= 1,
{
    let forward: i64 = if s.just_released(Action::MoveForward) {
        1
    } else {
        0
    };
    let backward: i64 = if s.just_released(Action::MoveBackward) {
        1
    } else {
        0
    };
    forward - backward
}

/// The world-space displacement of one frame: the entity's world forward
/// axis times the frame's step scalar.
pub fn motion_step(s: &ActionState, forward_axis: &Vec3Fixed) -> (d: Vec3Fixed)
    requires
        s.wf(),
        i64::MIN < forward_axis.x,
        i64::MIN < forward_axis.y,
        i64::MIN < forward_axis.z,
    ensures
        d.x as int == forward_axis.x * spec_step_scalar(s@),
        d.y as int == forward_axis.y * spec_step_scalar(s@),
        d.z as int == forward_axis.z * spec_step_scalar(s@),
{
    let k = step_scalar(s);
    proof {
        lemma_mul_unit(forward_axis.x as int, spec_step_scalar(s@));
        lemma_mul_unit(forward_axis.y as int, spec_step_scalar(s@));
        lemma_mul_unit(forward_axis.z as int, spec_step_scalar(s@));
    }
    if k == 1 {
        Vec3Fixed { x: forward_axis.x, y: forward_axis.y, z: forward_axis.z }
    } else if k == -1 {
        Vec3Fixed { x: -forward_axis.x, y: -forward_axis.y, z: -forward_axis.z }
    } else {
        Vec3Fixed { x: 0, y: 0, z: 0 }
    }
}

/// A product with a factor of magnitude at most one, written out.
proof fn lemma_mul_unit(x: int, k: int)
    ensures
        k == 0 ==> x * k == 0,
        k == 1 ==> x * k == x,
        k == -1 ==> x * k == -x,
{
    assert(x * 0 == 0) by (nonlinear_arith);
    assert(x * 1 == x) by (nonlinear_arith);
    assert(x * -1 == -x) by (nonlinear_arith);
}

/// Adds a displacement to a translation, saturating at the fixed-point
/// range.
pub fn apply_translation(t: &mut Vec3Fixed, d: &Vec3Fixed)
    ensures
        final(t).x as int == sat_i64(old(t).x + d.x),
        final(t).y as int == sat_i64(old(t).y + d.y),
        final(t).z as int == sat_i64(old(t).z + d.z),
{
    t.x = sat_add_i64(t.x, d.x);
    t.y = sat_add_i64(t.y, d.y);
    t.z = sat_add_i64(t.z, d.z);
}

/// The continuous-motion extension point: integrates a host-set direction,
/// in distance units per millisecond, over the frame's elapsed time. With
/// the direction at its startup value of zero the path is a no-op and the
/// entity does not move.
pub fn integrate_direction(t: &mut Vec3Fixed, direction: &Vec3Fixed, elapsed_ms: i64)
    requires
        -DIRECTION_BOUND <= direction.x <= DIRECTION_BOUND,
        -DIRECTION_BOUND <= direction.y <= DIRECTION_BOUND,
        -DIRECTION_BOUND <= direction.z <= DIRECTION_BOUND,
        0 <= elapsed_ms <= ELAPSED_BOUND,
    ensures
        final(t).x as int == sat_i64(old(t).x + direction.x * elapsed_ms),
        final(t).y as int == sat_i64(old(t).y + direction.y * elapsed_ms),
        final(t).z as int == sat_i64(old(t).z + direction.z * elapsed_ms),
        direction.x == 0 && direction.y == 0 && direction.z == 0 ==> *final(t) == *old(t),
{
    proof {
        assert(-1000000000000000000 <= direction.x as int * elapsed_ms as int
            <= 1000000000000000000) by (nonlinear_arith)
            requires
                -1000000000 <= direction.x as int <= 1000000000,
                0 <= elapsed_ms as int <= 1000000000,
        ;
        assert(-1000000000000000000 <= direction.y as int * elapsed_ms as int
            <= 1000000000000000000) by (nonlinear_arith)
            requires
                -1000000000 <= direction.y as int <= 1000000000,
                0 <= elapsed_ms as int <= 1000000000,
        ;
        assert(-1000000000000000000 <= direction.z as int * elapsed_ms as int
            <= 1000000000000000000) by (nonlinear_arith)
            requires
                -1000000000 <= direction.z as int <= 1000000000,
                0 <= elapsed_ms as int <= 1000000000,
        ;
    }
    let dx: i64 = direction.x * elapsed_ms;
    let dy: i64 = direction.y * elapsed_ms;
    let dz: i64 = direction.z * elapsed_ms;
    t.x = sat_add_i64(t.x, dx);
    t.y = sat_add_i64(t.y, dy);
    t.z = sat_add_i64(t.z, dz);
}

} // verus!
