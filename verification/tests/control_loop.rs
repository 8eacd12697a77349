use player_control::action::{
    Action, Binding, InputMap, PhysicalInput, KEY_A, KEY_LEFT, KEY_S, KEY_W,
};
use player_control::frame::{ControlState, FrameInput};
use player_control::look::{LookState, MouseDelta, PITCH_LIMIT_MICRODEG};
use player_control::motion::{
    apply_translation, integrate_direction, motion_step, step_scalar, Vec3Fixed,
};
use player_control::num::sat_add_i64;
use player_control::tracker::ActionState;

fn key(code: u32) -> PhysicalInput {
    PhysicalInput::Key(code)
}

fn no_input() -> Vec<PhysicalInput> {
    Vec::new()
}

#[test]
fn press_edge_means_down_now_and_up_before() {
    // A press edge appears exactly on the frame the key goes down.
    let map = InputMap::default_bindings();
    let mut st = ActionState::new();
    st.tick(&map, &vec![key(KEY_W)], 1);
    assert!(st.pressed(Action::MoveForward));
    assert!(st.just_pressed(Action::MoveForward));
    assert!(!st.just_released(Action::MoveForward));
    // Held on the next frame: down now, down before, so no edge.
    st.tick(&map, &vec![key(KEY_W)], 2);
    assert!(st.pressed(Action::MoveForward));
    assert!(!st.just_pressed(Action::MoveForward));
}

#[test]
fn release_edge_means_up_now_and_down_before() {
    let map = InputMap::default_bindings();
    let mut st = ActionState::new();
    st.tick(&map, &vec![key(KEY_S)], 1);
    st.tick(&map, &no_input(), 2);
    assert!(!st.pressed(Action::MoveBackward));
    assert!(st.just_released(Action::MoveBackward));
    assert!(!st.just_pressed(Action::MoveBackward));
    // One frame later the edge is gone.
    st.tick(&map, &no_input(), 3);
    assert!(!st.just_released(Action::MoveBackward));
}

#[test]
fn unbound_actions_stay_inactive() {
    let map = InputMap::new(Vec::new());
    let mut st = ActionState::new();
    st.tick(&map, &vec![key(KEY_W)], 1);
    assert!(!st.pressed(Action::MoveForward));
    assert!(!st.just_pressed(Action::MoveForward));
}

#[test]
fn either_of_two_bindings_activates_the_action() {
    // Scenario: Left and A both bound to StrafeLeft; either alone activates
    // it, and releasing one while the other stays held keeps it active.
    let map = InputMap::default_bindings();
    let mut st = ActionState::new();
    st.tick(&map, &vec![key(KEY_LEFT)], 1);
    assert!(st.pressed(Action::StrafeLeft));
    st.tick(&map, &no_input(), 2);
    assert!(!st.pressed(Action::StrafeLeft));

    let mut st2 = ActionState::new();
    st2.tick(&map, &vec![key(KEY_A)], 1);
    assert!(st2.pressed(Action::StrafeLeft));
    st2.tick(&map, &vec![key(KEY_A), key(KEY_LEFT)], 2);
    assert!(st2.pressed(Action::StrafeLeft));
    st2.tick(&map, &vec![key(KEY_A)], 3);
    assert!(st2.pressed(Action::StrafeLeft));
    assert!(!st2.just_released(Action::StrafeLeft));
}

#[test]
fn second_tick_of_the_same_frame_changes_nothing() {
    // Idempotence within a logical frame: the previous-frame snapshot moves
    // only when the frame number does, so edges are not consumed or
    // re-fired by a repeated call.
    let map = InputMap::default_bindings();
    let mut st = ActionState::new();
    st.tick(&map, &vec![key(KEY_W)], 1);
    assert!(st.just_pressed(Action::MoveForward));
    st.tick(&map, &vec![key(KEY_W)], 1);
    assert!(st.just_pressed(Action::MoveForward));
    assert!(st.pressed(Action::MoveForward));
    st.tick(&map, &no_input(), 2);
    assert!(st.just_released(Action::MoveForward));
    st.tick(&map, &no_input(), 2);
    assert!(st.just_released(Action::MoveForward));
}

#[test]
fn custom_binding_rows_are_kept() {
    let map = InputMap::new(vec![Binding {
        action: Action::Thrust,
        input: key(999),
    }]);
    let mut st = ActionState::new();
    st.tick(&map, &vec![key(999)], 1);
    assert!(st.just_pressed(Action::Thrust));
    assert!(!st.pressed(Action::MoveForward));
}

#[test]
fn yaw_moves_by_delta_times_scale_times_sensitivity() {
    // Scenario: dx = 100 at window scale 720 turns yaw by
    // 100 * 0.01 * 720 = 720 degrees, leftward, with pitch untouched.
    let mut look = LookState::new();
    look.process_delta(MouseDelta { dx: 100, dy: 0 }, 720);
    let o = look.orientation();
    assert_eq!(o.yaw_microdeg, -720_000_000);
    assert_eq!(o.pitch_microdeg, 0);
}

#[test]
fn pitch_saturates_at_the_clamp_bound() {
    // Scenario: huge downward deltas drive pitch to the clamp bound exactly
    // and never past it.
    let mut look = LookState::new();
    for _ in 0..5 {
        look.process_delta(MouseDelta { dx: 0, dy: 100_000 }, 720);
        assert_eq!(look.orientation().pitch_microdeg, -PITCH_LIMIT_MICRODEG);
    }
    // The opposite direction saturates at the positive bound.
    let mut up = LookState::new();
    for _ in 0..5 {
        up.process_delta(MouseDelta { dx: 0, dy: -100_000 }, 720);
        assert_eq!(up.orientation().pitch_microdeg, PITCH_LIMIT_MICRODEG);
    }
}

#[test]
fn small_pitch_moves_are_exact_and_reversible() {
    let mut look = LookState::new();
    look.process_delta(MouseDelta { dx: 0, dy: 3 }, 500);
    assert_eq!(look.orientation().pitch_microdeg, -15_000_000);
    look.process_delta(MouseDelta { dx: 0, dy: -3 }, 500);
    assert_eq!(look.orientation().pitch_microdeg, 0);
}

#[test]
fn orientation_depends_on_the_angles_alone() {
    // Two different delta histories that land on the same yaw and pitch
    // present identical orientations.
    let mut a = LookState::new();
    a.process_delta(MouseDelta { dx: 10, dy: 2 }, 100);
    let mut b = LookState::new();
    b.process_delta(MouseDelta { dx: 4, dy: 5 }, 100);
    b.process_delta(MouseDelta { dx: 6, dy: -3 }, 100);
    assert_eq!(a.orientation(), b.orientation());
}

#[test]
fn a_frame_batch_is_applied_in_order() {
    let mut look = LookState::new();
    let batch = vec![
        MouseDelta { dx: 1, dy: 0 },
        MouseDelta { dx: 2, dy: 0 },
        MouseDelta { dx: -3, dy: 1 },
    ];
    let o = look.process_frame(&batch, 100);
    assert_eq!(o.yaw_microdeg, 0);
    assert_eq!(o.pitch_microdeg, -1_000_000);
}

#[test]
fn no_release_edge_means_no_step() {
    // The resolver moves the entity only on a release edge of the forward
    // or backward action: holding a key, or pressing it, is not a step.
    let map = InputMap::default_bindings();
    let mut st = ActionState::new();
    let axis = Vec3Fixed { x: 3, y: 0, z: 7 };
    st.tick(&map, &vec![key(KEY_W)], 1);
    assert_eq!(step_scalar(&st), 0);
    let d = motion_step(&st, &axis);
    assert_eq!(d, Vec3Fixed { x: 0, y: 0, z: 0 });
    let mut t = Vec3Fixed { x: 10, y: 20, z: 30 };
    apply_translation(&mut t, &d);
    assert_eq!(t, Vec3Fixed { x: 10, y: 20, z: 30 });
}

#[test]
fn one_step_per_release_frame() {
    // Scenario: W pressed on one frame, released on the next. The press
    // frame moves nothing; the release frame steps once along the axis.
    let map = InputMap::default_bindings();
    let mut st = ActionState::new();
    let axis = Vec3Fixed { x: 0, y: 0, z: 5 };
    let mut t = Vec3Fixed { x: 0, y: 0, z: 0 };

    st.tick(&map, &vec![key(KEY_W)], 1);
    apply_translation(&mut t, &motion_step(&st, &axis));
    assert_eq!(t, Vec3Fixed { x: 0, y: 0, z: 0 });

    st.tick(&map, &no_input(), 2);
    assert_eq!(step_scalar(&st), 1);
    apply_translation(&mut t, &motion_step(&st, &axis));
    assert_eq!(t, Vec3Fixed { x: 0, y: 0, z: 5 });

    st.tick(&map, &no_input(), 3);
    apply_translation(&mut t, &motion_step(&st, &axis));
    assert_eq!(t, Vec3Fixed { x: 0, y: 0, z: 5 });
}

#[test]
fn backward_release_steps_against_the_axis() {
    let map = InputMap::default_bindings();
    let mut st = ActionState::new();
    let axis = Vec3Fixed { x: 1, y: 2, z: 9 };
    st.tick(&map, &vec![key(KEY_S)], 1);
    st.tick(&map, &no_input(), 2);
    assert_eq!(step_scalar(&st), -1);
    assert_eq!(motion_step(&st, &axis), Vec3Fixed { x: -1, y: -2, z: -9 });
}

#[test]
fn saturating_addition_stops_at_the_range_ends() {
    assert_eq!(sat_add_i64(i64::MAX, 1), i64::MAX);
    assert_eq!(sat_add_i64(i64::MIN, -1), i64::MIN);
    assert_eq!(sat_add_i64(40, 2), 42);
}

#[test]
fn continuous_path_rests_until_a_direction_is_set() {
    // The host-set direction starts at zero, so the continuous path moves
    // nothing; once set, it integrates direction times elapsed time.
    let mut t = Vec3Fixed { x: 1, y: 2, z: 3 };
    integrate_direction(&mut t, &Vec3Fixed { x: 0, y: 0, z: 0 }, 16);
    assert_eq!(t, Vec3Fixed { x: 1, y: 2, z: 3 });
    integrate_direction(&mut t, &Vec3Fixed { x: 2, y: 0, z: -1 }, 16);
    assert_eq!(t, Vec3Fixed { x: 33, y: 2, z: -13 });
}

#[test]
fn advance_runs_the_whole_frame() {
    // The full loop over three frames: press W with a mouse turn, release,
    // then an idle frame.
    let map = InputMap::default_bindings();
    let mut ctl = ControlState::new();
    let axis = Vec3Fixed { x: 0, y: 0, z: 4 };
    let mut t = Vec3Fixed { x: 0, y: 0, z: 0 };

    let out1 = ctl.advance(
        &map,
        &FrameInput {
            frame: 1,
            inputs_down: vec![key(KEY_W)],
            mouse_deltas: vec![MouseDelta { dx: 100, dy: 0 }],
            window_scale: 720,
        },
        &axis,
    );
    assert_eq!(out1.orientation.yaw_microdeg, -720_000_000);
    assert_eq!(out1.step, Vec3Fixed { x: 0, y: 0, z: 0 });
    apply_translation(&mut t, &out1.step);

    let out2 = ctl.advance(
        &map,
        &FrameInput {
            frame: 2,
            inputs_down: Vec::new(),
            mouse_deltas: Vec::new(),
            window_scale: 720,
        },
        &axis,
    );
    assert_eq!(out2.orientation.yaw_microdeg, -720_000_000);
    assert_eq!(out2.step, Vec3Fixed { x: 0, y: 0, z: 4 });
    apply_translation(&mut t, &out2.step);

    let out3 = ctl.advance(
        &map,
        &FrameInput {
            frame: 3,
            inputs_down: Vec::new(),
            mouse_deltas: Vec::new(),
            window_scale: 720,
        },
        &axis,
    );
    assert_eq!(out3.step, Vec3Fixed { x: 0, y: 0, z: 0 });
    assert_eq!(t, Vec3Fixed { x: 0, y: 0, z: 4 });
}
