//! Logical actions, physical inputs, and the many-to-one binding table.

use vstd::prelude::*;

verus! {

/// A device-independent intent the player can express.
#[derive(Clone, Copy, PartialEq, Eq, Structural, Debug)]
pub enum Action {
    Thrust,
    Activate,
    WeaponPrimary,
    WeaponSecondary,
    MoveForward,
    MoveBackward,
    StrafeLeft,
    StrafeRight,
}

/// A physical input source as the host reports it: a key code or a mouse
/// button identifier. The codes are the library's own; the host translates
/// its device identifiers into these.
#[derive(Clone, Copy, PartialEq, Eq, Structural, Debug)]
pub enum PhysicalInput {
    Key(u32),
    MouseButton(u32),
}

pub const KEY_LSHIFT: u32 = 16;
pub const KEY_SPACE: u32 = 32;
pub const KEY_LEFT: u32 = 37;
pub const KEY_RIGHT: u32 = 39;
pub const KEY_A: u32 = 65;
pub const KEY_D: u32 = 68;
pub const KEY_S: u32 = 83;
pub const KEY_W: u32 = 87;
pub const MOUSE_LEFT: u32 = 0;
pub const MOUSE_RIGHT: u32 = 1;

/// One row of the binding table: while `input` is held down, `action` is
/// active.
#[derive(Clone, Copy, PartialEq, Eq, Structural, Debug)]
pub struct Binding {
    pub action: Action,
    pub input: PhysicalInput,
}

/// An action is active exactly when some binding ties it to a physical input
/// that is currently down (an OR over all of its bindings).
pub open spec fn action_active(
    bindings: Seq<Binding>,
    down: Seq<PhysicalInput>,
    a: Action,
) -> bool {
    exists|i: int|
        0 <= i < bindings.len() && (#[trigger] bindings[i]).action == a && down.contains(
            bindings[i].input,
        )
}

/// The default binding table: the rows of `InputMap::default_bindings`, in
/// order.
pub open spec fn default_binding_table() -> Seq<Binding> {
    seq![
        Binding { action: Action::StrafeLeft, input: PhysicalInput::Key(KEY_LEFT) },
        Binding { action: Action::StrafeLeft, input: PhysicalInput::Key(KEY_A) },
        Binding { action: Action::StrafeRight, input: PhysicalInput::Key(KEY_RIGHT) },
        Binding { action: Action::StrafeRight, input: PhysicalInput::Key(KEY_D) },
        Binding { action: Action::Thrust, input: PhysicalInput::Key(KEY_LSHIFT) },
        Binding { action: Action::WeaponPrimary, input: PhysicalInput::MouseButton(MOUSE_LEFT) },
        Binding { action: Action::WeaponSecondary, input: PhysicalInput::MouseButton(MOUSE_RIGHT) },
        Binding { action: Action::Activate, input: PhysicalInput::Key(KEY_SPACE) },
        Binding { action: Action::MoveForward, input: PhysicalInput::Key(KEY_W) },
        Binding { action: Action::MoveBackward, input: PhysicalInput::Key(KEY_S) },
    ]
}

/// Whether `down` lists the input `x`.
pub fn input_down(down: &Vec<PhysicalInput>, x: PhysicalInput) -> (r: bool)
    ensures
        r == down@.contains(x),
{
    let mut i: usize = 0;
    while i < down.len()
        invariant
            0 <= i <= down@.len(),
            forall|j: int| 0 <= j < i ==> down@[j] != x,
        decreases down@.len() - i,
    {
        if down[i] == x {
            return true;
        }
        i += 1;
    }
    false
}

/// The static table from physical inputs to logical actions. Many inputs may
/// feed one action; a physical input bound to two different actions is an
/// unsupported configuration and is not rejected (each action still sees the
/// OR over its own rows).
pub struct InputMap {
    pub bindings: Vec<Binding>,
}

impl InputMap {
    /// Builds a map from an explicit list of rows.
    pub fn new(bindings: Vec<Binding>) -> (m: InputMap)
        ensures
            m.bindings@ == bindings@,
    {
        InputMap { bindings }
    }

    /// The stock table: arrow keys and A/D strafe, W/S step forward and
    /// backward, left shift thrusts, space activates, the mouse buttons fire
    /// the two weapons.
    pub fn default_bindings() -> (m: InputMap)
        ensures
            m.bindings@ =~= default_binding_table(),
    {
        let rows: Vec<Binding> = vec![
            Binding { action: Action::StrafeLeft, input: PhysicalInput::Key(KEY_LEFT) },
            Binding { action: Action::StrafeLeft, input: PhysicalInput::Key(KEY_A) },
            Binding { action: Action::StrafeRight, input: PhysicalInput::Key(KEY_RIGHT) },
            Binding { action: Action::StrafeRight, input: PhysicalInput::Key(KEY_D) },
            Binding { action: Action::Thrust, input: PhysicalInput::Key(KEY_LSHIFT) },
            Binding {
                action: Action::WeaponPrimary,
                input: PhysicalInput::MouseButton(MOUSE_LEFT),
            },
            Binding {
                action: Action::WeaponSecondary,
                input: PhysicalInput::MouseButton(MOUSE_RIGHT),
            },
            Binding { action: Action::Activate, input: PhysicalInput::Key(KEY_SPACE) },
            Binding { action: Action::MoveForward, input: PhysicalInput::Key(KEY_W) },
            Binding { action: Action::MoveBackward, input: PhysicalInput::Key(KEY_S) },
        ];
        InputMap { bindings: rows }
    }

    /// Whether `a` is active given the physical inputs currently down.
    pub fn is_action_down(&self, down: &Vec<PhysicalInput>, a: Action) -> (r: bool)
        ensures
            r == action_active(self.bindings@, down@, a),
    {
        let mut i: usize = 0;
        while i < self.bindings.len()
            invariant
                0 <= i <= self.bindings@.len(),
                forall|j: int|
                    0 <= j < i ==> !((#[trigger] self.bindings@[j]).action == a
                        && down@.contains(self.bindings@[j].input)),
            decreases self.bindings@.len() - i,
        {
            let row = self.bindings[i];
            if row.action == a && input_down(down, row.input) {
                return true;
            }
            i += 1;
        }
        false
    }
}

} // verus!
