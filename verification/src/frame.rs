//! One frame of the control loop, in the order the host must run it: input
//! sampling (host) -> action mapping and edge tracking -> look rotation and
//! step motion -> transform commit (host).

use vstd::prelude::*;
use crate::action::{InputMap, PhysicalInput};
use crate::look::{
    DELTA_BOUND, LookState, MouseDelta, Orientation, SCALE_BOUND, look_run, look_wf,
    spec_orientation,
};
use crate::motion::{Vec3Fixed, motion_step, spec_step_scalar};
use crate::tracker::{ActionState, tracker_step};

verus! {

/// Everything the host sampled for one frame: the frame's number (counted
/// from 1; 0 is startup), the physical inputs currently down, the frame's
/// batch of mouse-motion events, and the smaller of the window's pixel
/// dimensions.
pub struct FrameInput {
    pub frame: u64,
    pub inputs_down: Vec<PhysicalInput>,
    pub mouse_deltas: Vec<MouseDelta>,
    pub window_scale: i64,
}

/// What the host commits after one frame: the absolute camera orientation,
/// overwriting the camera rotation, and the step displacement to add to the
/// controlled entity's translation.
pub struct FrameOutput {
    pub orientation: Orientation,
    pub step: Vec3Fixed,
}

/// The persistent state of the control loop: the action-state tracker and
/// the look controller, created once at startup and advanced once per frame.
pub struct ControlState {
    pub actions: ActionState,
    pub look: LookState,
}

impl ControlState {
    pub open spec fn wf(&self) -> bool {
        self.actions.wf() && look_wf(self.look@)
    }

    /// The startup state: no action active, level look.
    pub fn new() -> (s: ControlState)
        ensures
            s.wf(),
            s.actions@.frame == 0,
            s.look@.yaw == 0,
            s.look@.pitch == 0,
    {
        ControlState { actions: ActionState::new(), look: LookState::new() }
    }

    /// Runs one frame: ticks the tracker against the binding table and the
    /// inputs down, drains the frame's mouse-motion batch into the look
    /// state, and resolves the step displacement along the entity's world
    /// forward axis from the fresh release edges. The host applies the
    /// returned orientation and step; with no camera or no controlled entity
    /// it skips the corresponding commit and loses nothing else.
    pub fn advance(&mut self, map: &InputMap, input: &FrameInput, forward_axis: &Vec3Fixed) -> (out:
        FrameOutput)
        requires
            old(self).wf(),
            0 <= input.window_scale <= SCALE_BOUND,
            forall|i: int|
                0 <= i < input.mouse_deltas@.len() ==> -DELTA_BOUND <= (
                #[trigger] input.mouse_deltas@[i]).dx <= DELTA_BOUND && -DELTA_BOUND
                    <= input.mouse_deltas@[i].dy <= DELTA_BOUND,
            i64::MIN < forward_axis.x,
            i64::MIN < forward_axis.y,
            i64::MIN < forward_axis.z,
        ensures
            final(self).wf(),
            final(self).actions@ == tracker_step(
                old(self).actions@,
                map.bindings@,
                input.inputs_down@,
                input.frame,
            ),
            final(self).look@ == look_run(
                old(self).look@,
                input.mouse_deltas@,
                input.window_scale as int,
            ),
            (out.orientation.yaw_microdeg as int, out.orientation.pitch_microdeg as int)
                == spec_orientation(final(self).look@),
            out.step.x as int == forward_axis.x * spec_step_scalar(final(self).actions@),
            out.step.y as int == forward_axis.y * spec_step_scalar(final(self).actions@),
            out.step.z as int == forward_axis.z * spec_step_scalar(final(self).actions@),
    {
        self.actions.tick(map, &input.inputs_down, input.frame);
        let orientation = self.look.process_frame(&input.mouse_deltas, input.window_scale);
        let step = motion_step(&self.actions, forward_axis);
        FrameOutput { orientation, step }
    }
}

} // verus!
