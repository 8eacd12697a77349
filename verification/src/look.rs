//! The look controller: accumulates clamped pitch and yaw from mouse-motion
//! deltas and hands the host an absolute orientation each frame.
//!
//! Angles are exact fixed-point integers in millionths of a degree. A delta
//! of one pixel at window scale one moves the angle by `SENSITIVITY_MICRODEG`
//! (a hundredth of a degree); the host passes the smaller of the window's
//! pixel dimensions as the scale, which makes the feel resolution
//! independent. The host converts the angles to its own radian type only
//! when it builds the camera rotation.

use vstd::prelude::*;
use crate::num::{clip_i64, sat_i64};

verus! {

/// A hundredth of a degree in millionths of a degree: the angle one delta
/// pixel contributes per unit of window scale.
pub const SENSITIVITY_MICRODEG: i64 = 10000;

/// The pitch clamp bound: 1.54 radians (just short of straight up or down),
/// in millionths of a degree.
pub const PITCH_LIMIT_MICRODEG: i64 = 88235355;

/// The largest per-event delta magnitude the controller accepts.
pub const DELTA_BOUND: i64 = 1000000;

/// The largest window scale the controller accepts.
pub const SCALE_BOUND: i64 = 1000000;

/// One mouse-motion event: horizontal and vertical movement in pixels,
/// rightward and downward positive.
#[derive(Clone, Copy, PartialEq, Eq, Structural, Debug)]
pub struct MouseDelta {
    pub dx: i64,
    pub dy: i64,
}

/// The mathematical state of the controller: both angles in millionths of a
/// degree.
pub struct LookView {
    pub yaw: int,
    pub pitch: int,
}

/// Pitch always stays inside the clamp range.
pub open spec fn look_wf(v: LookView) -> bool {
    -PITCH_LIMIT_MICRODEG <= v.pitch <= PITCH_LIMIT_MICRODEG
}

/// `p` forced into the pitch clamp range.
pub open spec fn clamp_pitch(p: int) -> int {
    if p < -PITCH_LIMIT_MICRODEG as int {
        -PITCH_LIMIT_MICRODEG as int
    } else if p > PITCH_LIMIT_MICRODEG as int {
        PITCH_LIMIT_MICRODEG as int
    } else {
        p
    }
}

/// One delta applied to the look state: both angles decrease by the delta
/// times the window scale times the sensitivity, then pitch is clamped.
/// (Yaw saturates at the fixed-point range, far beyond any reachable angle.)
pub open spec fn look_step(v: LookView, d: MouseDelta, scale: int) -> LookView {
    LookView {
        yaw: sat_i64(v.yaw - d.dx * scale * SENSITIVITY_MICRODEG),
        pitch: clamp_pitch(v.pitch - d.dy * scale * SENSITIVITY_MICRODEG),
    }
}

/// A whole frame's deltas applied in order.
pub open spec fn look_run(v: LookView, ds: Seq<MouseDelta>, scale: int) -> LookView
    decreases ds.len(),
{
    if ds.len() == 0 {
        v
    } else {
        look_run(look_step(v, ds[0], scale), ds.subrange(1, ds.len() as int), scale)
    }
}

/// Appending one delta to a run is one more step after the run.
pub proof fn lemma_look_run_snoc(v: LookView, ds: Seq<MouseDelta>, d: MouseDelta, scale: int)
    ensures
        look_run(v, ds.push(d), scale) == look_step(look_run(v, ds, scale), d, scale),
    decreases ds.len(),
{
    reveal_with_fuel(look_run, 3);
    if ds.len() == 0 {
        assert(ds.push(d)[0] == d);
        assert(ds.push(d).subrange(1, ds.push(d).len() as int) =~= Seq::<MouseDelta>::empty());
    } else {
        assert(ds.push(d)[0] == ds[0]);
        assert(ds.push(d).subrange(1, ds.push(d).len() as int) =~= ds.subrange(
            1,
            ds.len() as int,
        ).push(d));
        lemma_look_run_snoc(look_step(v, ds[0], scale), ds.subrange(1, ds.len() as int), d, scale);
    }
}

/// However many deltas arrive, in whatever order and of whatever size, the
/// pitch of a valid state stays inside the clamp range.
pub proof fn lemma_pitch_always_clamped(v: LookView, ds: Seq<MouseDelta>, scale: int)
    requires
        look_wf(v),
    ensures
        look_wf(look_run(v, ds, scale)),
    decreases ds.len(),
{
    if ds.len() > 0 {
        lemma_pitch_always_clamped(look_step(v, ds[0], scale), ds.subrange(1, ds.len() as int), scale);
    }
}

/// The absolute camera orientation for one frame: rotate about the world up
/// axis by `yaw_microdeg`, then about the local right axis by
/// `pitch_microdeg`, in that order. The host builds its rotation type from
/// these two angles alone and overwrites the camera rotation with it.
#[derive(Clone, Copy, PartialEq, Eq, Structural, Debug)]
pub struct Orientation {
    pub yaw_microdeg: i64,
    pub pitch_microdeg: i64,
}

/// The orientation a look state presents: a function of the two stored
/// angles and of nothing else.
pub open spec fn spec_orientation(v: LookView) -> (int, int) {
    (v.yaw, v.pitch)
}

/// Orientation is recomputed from the stored angles, never accumulated: two
/// states that hold the same angles present the same orientation, whatever
/// delta histories produced them.
pub proof fn lemma_orientation_determined(a: LookView, b: LookView)
    requires
        a.yaw == b.yaw,
        a.pitch == b.pitch,
    ensures
        spec_orientation(a) == spec_orientation(b),
{
}

/// The look controller's persistent state. Created once at startup at zero
/// and mutated in place every frame.
pub struct LookState {
    yaw: i64,
    pitch: i64,
}

impl LookState {
    pub closed spec fn view(&self) -> LookView {
        LookView { yaw: self.yaw as int, pitch: self.pitch as int }
    }

    /// Level and facing the world forward axis.
    pub fn new() -> (s: LookState)
        ensures
            s@.yaw == 0,
            s@.pitch == 0,
            look_wf(s@),
    {
        LookState { yaw: 0, pitch: 0 }
    }

    /// Applies one mouse-motion event.
    pub fn process_delta(&mut self, d: MouseDelta, scale: i64)
        requires
            look_wf(old(self)@),
            -DELTA_BOUND <= d.dx <= DELTA_BOUND,
            -DELTA_BOUND <= d.dy <= DELTA_BOUND,
            0 <= scale <= SCALE_BOUND,
        ensures
            final(self)@ == look_step(old(self)@, d, scale as int),
            look_wf(final(self)@),
    {
        proof {
            assert(-1000000000000 <= d.dx as int * scale as int <= 1000000000000)
                by (nonlinear_arith)
                requires
                    -1000000 <= d.dx as int <= 1000000,
                    0 <= scale as int <= 1000000,
            ;
            assert(-1000000000000 <= d.dy as int * scale as int <= 1000000000000)
                by (nonlinear_arith)
                requires
                    -1000000 <= d.dy as int <= 1000000,
                    0 <= scale as int <= 1000000,
            ;
        }
        let scaled_x: i64 = d.dx * scale;
        let inc_x: i64 = scaled_x * SENSITIVITY_MICRODEG;
        let scaled_y: i64 = d.dy * scale;
        let inc_y: i64 = scaled_y * SENSITIVITY_MICRODEG;

        let wide_yaw: i128 = (self.yaw as i128) - (inc_x as i128);
        self.yaw = clip_i64(wide_yaw);

        let mut p: i64 = self.pitch - inc_y;
        if p < -PITCH_LIMIT_MICRODEG {
            p = -PITCH_LIMIT_MICRODEG;
        }
        if p > PITCH_LIMIT_MICRODEG {
            p = PITCH_LIMIT_MICRODEG;
        }
        self.pitch = p;
    }

    /// Consumes the frame's whole batch of mouse-motion events, in order.
    /// The host hands each frame's batch to exactly one caller, so every
    /// event is applied exactly once.
    pub fn process_frame(&mut self, deltas: &Vec<MouseDelta>, window_scale: i64) -> (o: Orientation)
        requires
            look_wf(old(self)@),
            0 <= window_scale <= SCALE_BOUND,
            forall|i: int|
                0 <= i < deltas@.len() ==> -DELTA_BOUND <= (#[trigger] deltas@[i]).dx <= DELTA_BOUND
                    && -DELTA_BOUND <= deltas@[i].dy <= DELTA_BOUND,
        ensures
            final(self)@ == look_run(old(self)@, deltas@, window_scale as int),
            look_wf(final(self)@),
            (o.yaw_microdeg as int, o.pitch_microdeg as int) == spec_orientation(final(self)@),
    {
        let ghost orig = self@;
        let mut i: usize = 0;
        while i < deltas.len()
            invariant
                look_wf(self@),
                0 <= i <= deltas@.len(),
                0 <= window_scale <= SCALE_BOUND,
                forall|j: int|
                    0 <= j < deltas@.len() ==> -DELTA_BOUND <= (#[trigger] deltas@[j]).dx
                        <= DELTA_BOUND && -DELTA_BOUND <= deltas@[j].dy <= DELTA_BOUND,
                self@ == look_run(orig, deltas@.subrange(0, i as int), window_scale as int),
            decreases deltas@.len() - i,
        {
            let d = deltas[i];
            proof {
                assert(deltas@.subrange(0, i as int + 1) =~= deltas@.subrange(0, i as int).push(
                    deltas@[i as int],
                ));
                lemma_look_run_snoc(
                    orig,
                    deltas@.subrange(0, i as int),
                    deltas@[i as int],
                    window_scale as int,
                );
            }
            self.process_delta(d, window_scale);
            i += 1;
        }
        proof {
            assert(deltas@.subrange(0, deltas@.len() as int) =~= deltas@);
        }
        self.orientation()
    }

    /// The orientation the current angles present.
    pub fn orientation(&self) -> (o: Orientation)
        ensures
            (o.yaw_microdeg as int, o.pitch_microdeg as int) == spec_orientation(self@),
    {
        Orientation { yaw_microdeg: self.yaw, pitch_microdeg: self.pitch }
    }
}

} // verus!
