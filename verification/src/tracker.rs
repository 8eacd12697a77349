//! Per-frame action state: held / just-pressed / just-released for every
//! logical action, derived by diffing this frame's raw input against the
//! previous frame's state.

use vstd::prelude::*;
use crate::action::{Action, Binding, InputMap, PhysicalInput, action_active};

verus! {

pub const NUM_ACTIONS: usize = 8;

/// The position of each action in the tracker's per-action tables.
pub open spec fn action_index(a: Action) -> int {
    match a {
        Action::Thrust => 0,
        Action::Activate => 1,
        Action::WeaponPrimary => 2,
        Action::WeaponSecondary => 3,
        Action::MoveForward => 4,
        Action::MoveBackward => 5,
        Action::StrafeLeft => 6,
        Action::StrafeRight => 7,
    }
}

/// The action stored at position `i`.
pub open spec fn action_of(i: int) -> Action {
    if i == 0 {
        Action::Thrust
    } else if i == 1 {
        Action::Activate
    } else if i == 2 {
        Action::WeaponPrimary
    } else if i == 3 {
        Action::WeaponSecondary
    } else if i == 4 {
        Action::MoveForward
    } else if i == 5 {
        Action::MoveBackward
    } else if i == 6 {
        Action::StrafeLeft
    } else {
        Action::StrafeRight
    }
}

pub proof fn lemma_action_index(a: Action)
    ensures
        0 <= action_index(a) < NUM_ACTIONS,
        action_of(action_index(a)) == a,
{
    match a {
        Action::Thrust => {},
        Action::Activate => {},
        Action::WeaponPrimary => {},
        Action::WeaponSecondary => {},
        Action::MoveForward => {},
        Action::MoveBackward => {},
        Action::StrafeLeft => {},
        Action::StrafeRight => {},
    }
}

/// The mathematical state of the tracker: this frame's activity, the previous
/// frame's activity, and the number of the frame last accounted for.
pub struct TrackerView {
    pub current: Seq<bool>,
    pub previous: Seq<bool>,
    pub frame: u64,
}

/// Whether `a` is held down in state `v`.
pub open spec fn spec_current(v: TrackerView, a: Action) -> bool {
    v.current[action_index(a)]
}

/// Whether `a` was held down one frame earlier.
pub open spec fn spec_previous(v: TrackerView, a: Action) -> bool {
    v.previous[action_index(a)]
}

/// A one-frame-wide press edge: down now, up a frame ago.
pub open spec fn spec_just_pressed(v: TrackerView, a: Action) -> bool {
    spec_current(v, a) && !spec_previous(v, a)
}

/// A one-frame-wide release edge: up now, down a frame ago.
pub open spec fn spec_just_released(v: TrackerView, a: Action) -> bool {
    !spec_current(v, a) && spec_previous(v, a)
}

/// One tracker update. A repeated call for the frame already accounted for
/// changes nothing, so edges fire exactly once per logical frame; otherwise
/// the previous activity becomes last frame's `current` and the new activity
/// is read from the binding table and the inputs now down.
pub open spec fn tracker_step(
    v: TrackerView,
    bindings: Seq<Binding>,
    down: Seq<PhysicalInput>,
    frame: u64,
) -> TrackerView {
    if frame == v.frame {
        v
    } else {
        TrackerView {
            current: Seq::new(NUM_ACTIONS as nat, |i: int| action_active(bindings, down, action_of(i))),
            previous: v.current,
            frame,
        }
    }
}

/// Ticking twice for the same logical frame is the same as ticking once: the
/// snapshot of the previous frame advances only when the frame number does.
pub proof fn lemma_tick_idempotent(
    v: TrackerView,
    bindings: Seq<Binding>,
    down: Seq<PhysicalInput>,
    frame: u64,
)
    ensures
        tracker_step(tracker_step(v, bindings, down, frame), bindings, down, frame)
            == tracker_step(v, bindings, down, frame),
{
}

/// A press edge observed after a tick for a new frame means the action is
/// active in the new frame and was inactive in the state the tick replaced.
pub proof fn lemma_just_pressed_edge(
    v: TrackerView,
    bindings: Seq<Binding>,
    down: Seq<PhysicalInput>,
    frame: u64,
    a: Action,
)
    requires
        frame != v.frame,
        spec_just_pressed(tracker_step(v, bindings, down, frame), a),
    ensures
        spec_current(tracker_step(v, bindings, down, frame), a),
        !spec_current(v, a),
        action_active(bindings, down, a),
{
    lemma_action_index(a);
}

/// A release edge observed after a tick for a new frame means the action is
/// inactive in the new frame and was active in the state the tick replaced.
pub proof fn lemma_just_released_edge(
    v: TrackerView,
    bindings: Seq<Binding>,
    down: Seq<PhysicalInput>,
    frame: u64,
    a: Action,
)
    requires
        frame != v.frame,
        spec_just_released(tracker_step(v, bindings, down, frame), a),
    ensures
        !spec_current(tracker_step(v, bindings, down, frame), a),
        spec_current(v, a),
        !action_active(bindings, down, a),
{
    lemma_action_index(a);
}

/// The action-state tracker. Created once at startup with everything
/// inactive, then ticked exactly once per frame.
pub struct ActionState {
    current: Vec<bool>,
    previous: Vec<bool>,
    frame: u64,
}

impl ActionState {
    pub closed spec fn view(&self) -> TrackerView {
        TrackerView { current: self.current@, previous: self.previous@, frame: self.frame }
    }

    /// Both per-action tables cover every action.
    pub closed spec fn wf(&self) -> bool {
        self.current@.len() == NUM_ACTIONS && self.previous@.len() == NUM_ACTIONS
    }

    /// The state as of frame 0 (startup): nothing down, nothing down before.
    /// The host numbers real frames from 1 upward.
    pub fn new() -> (s: ActionState)
        ensures
            s.wf(),
            s@.frame == 0,
            forall|a: Action| !spec_current(s@, a) && !spec_previous(s@, a),
    {
        let current: Vec<bool> = vec![false, false, false, false, false, false, false, false];
        let previous: Vec<bool> = vec![false, false, false, false, false, false, false, false];
        let s = ActionState { current, previous, frame: 0 };
        proof {
            assert forall|a: Action| !spec_current(s@, a) && !spec_previous(s@, a) by {
                lemma_action_index(a);
            }
        }
        s
    }

    /// Whether `a` is held down this frame.
    pub fn pressed(&self, a: Action) -> (r: bool)
        requires
            self.wf(),
        ensures
            r == spec_current(self@, a),
    {
        proof {
            lemma_action_index(a);
        }
        let i = index_of(a);
        self.current[i]
    }

    /// Whether `a` went down this frame.
    pub fn just_pressed(&self, a: Action) -> (r: bool)
        requires
            self.wf(),
        ensures
            r == spec_just_pressed(self@, a),
    {
        proof {
            lemma_action_index(a);
        }
        let i = index_of(a);
        self.current[i] && !self.previous[i]
    }

    /// Whether `a` went up this frame.
    pub fn just_released(&self, a: Action) -> (r: bool)
        requires
            self.wf(),
        ensures
            r == spec_just_released(self@, a),
    {
        proof {
            lemma_action_index(a);
        }
        let i = index_of(a);
        !self.current[i] && self.previous[i]
    }

    /// One per-frame update: reads which actions are active from the binding
    /// table and the inputs down, keeps the replaced activity as the previous
    /// frame's, and records the frame number. Called again for the same
    /// frame, it leaves the state untouched.
    pub fn tick(&mut self, map: &InputMap, down: &Vec<PhysicalInput>, frame: u64)
        requires
            old(self).wf(),
        ensures
            final(self).wf(),
            final(self)@ == tracker_step(old(self)@, map.bindings@, down@, frame),
    {
        if frame == self.frame {
            return ;
        }
        let ghost orig = self@;
        let mut i: usize = 0;
        while i < NUM_ACTIONS
            invariant
                self.wf(),
                0 <= i <= NUM_ACTIONS,
                self.frame == orig.frame,
                forall|j: int| i <= j < NUM_ACTIONS ==> self.current@[j] == orig.current[j],
                forall|j: int|
                    0 <= j < i ==> self.current@[j] == action_active(
                        map.bindings@,
                        down@,
                        action_of(j),
                    ),
                forall|j: int| 0 <= j < i ==> self.previous@[j] == orig.current[j],
                forall|j: int| i <= j < NUM_ACTIONS ==> self.previous@[j] == orig.previous[j],
            decreases NUM_ACTIONS - i,
    {
            let a = action_of_index(i);
            let held = self.current[i];
            self.previous.set(i, held);
            let now = map.is_action_down(down, a);
            self.current.set(i, now);
            i += 1;
        }
        self.frame = frame;
        proof {
            let stepped = tracker_step(orig, map.bindings@, down@, frame);
            assert forall|j: int| 0 <= j < NUM_ACTIONS implies self.current@[j] == stepped.current[j] by {
                lemma_action_index(action_of(j));
            }
            assert(self@.current =~= stepped.current);
            assert(self@.previous =~= stepped.previous);
        }
    }
}

/// The table position of `a`.
fn index_of(a: Action) -> (i: usize)
    ensures
        i == action_index(a),
        i < NUM_ACTIONS,
{
    match a {
        Action::Thrust => 0,
        Action::Activate => 1,
        Action::WeaponPrimary => 2,
        Action::WeaponSecondary => 3,
        Action::MoveForward => 4,
        Action::MoveBackward => 5,
        Action::StrafeLeft => 6,
        Action::StrafeRight => 7,
    }
}

/// The action at table position `i`.
fn action_of_index(i: usize) -> (a: Action)
    requires
        i < NUM_ACTIONS,
    ensures
        a == action_of(i as int),
{
    if i == 0 {
        Action::Thrust
    } else if i == 1 {
        Action::Activate
    } else if i == 2 {
        Action::WeaponPrimary
    } else if i == 3 {
        Action::WeaponSecondary
    } else if i == 4 {
        Action::MoveForward
    } else if i == 5 {
        Action::MoveBackward
    } else if i == 6 {
        Action::StrafeLeft
    } else {
        Action::StrafeRight
    }
}

} // verus!
