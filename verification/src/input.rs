use vstd::prelude::*;

verus! {

/// Which input device currently steers the game.
#[derive(Clone, Copy, PartialEq, Eq, Structural, Debug, Hash)]
pub enum ActiveInput {
    MouseKeyboard,
    Gamepad,
}

/// The kinds of gamepad event the mode switch looks at.
#[derive(Clone, Copy, PartialEq, Eq, Structural, Debug)]
pub enum GamepadEventKind {
    Button,
    Axis,
    Connection,
}

/// A button press or an axis movement claims the gamepad; connections
/// and disconnections do not.
pub open spec fn claims_gamepad(e: GamepadEventKind) -> bool {
    e is Button || e is Axis
}

/// Switch to the gamepad as soon as any of this frame's events presses a
/// button or moves an axis.
pub fn activate_gamepad(events: &Vec<GamepadEventKind>, state: &mut ActiveInput)
    requires
        *old(state) == ActiveInput::MouseKeyboard,
    ensures
        *final(state) == if exists|i: int| 0 <= i < events@.len() && claims_gamepad(events@[i]) {
            ActiveInput::Gamepad
        } else {
            ActiveInput::MouseKeyboard
        },
{
    let mut i: usize = 0;
    while i < events.len()
        invariant
            i <= events@.len(),
            *state == ActiveInput::MouseKeyboard,
            forall|k: int| 0 <= k < i ==> !claims_gamepad(events@[k]),
        decreases events@.len() - i,
    {
        match events[i] {
            GamepadEventKind::Button | GamepadEventKind::Axis => {
                *state = ActiveInput::Gamepad;
                return ;
            },
            GamepadEventKind::Connection => {},
        }
        i = i + 1;
    }
}

/// Switch back to mouse and keyboard as soon as any key went down.
pub fn activate_mkb(any_key: bool, state: &mut ActiveInput)
    requires
        *old(state) == ActiveInput::Gamepad,
    ensures
        *final(state) == if any_key {
            ActiveInput::MouseKeyboard
        } else {
            ActiveInput::Gamepad
        },
{
    if any_key {
        *state = ActiveInput::MouseKeyboard;
    }
}

} // verus!
