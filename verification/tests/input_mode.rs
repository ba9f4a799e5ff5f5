use dice_td::input::{activate_gamepad, activate_mkb, ActiveInput, GamepadEventKind};

#[test]
fn a_button_or_axis_event_claims_the_gamepad() {
    let mut state = ActiveInput::MouseKeyboard;
    activate_gamepad(
        &vec![GamepadEventKind::Connection, GamepadEventKind::Axis],
        &mut state,
    );
    assert_eq!(state, ActiveInput::Gamepad);

    let mut state = ActiveInput::MouseKeyboard;
    activate_gamepad(&vec![GamepadEventKind::Button], &mut state);
    assert_eq!(state, ActiveInput::Gamepad);
}

#[test]
fn connections_alone_leave_the_mode_alone() {
    let mut state = ActiveInput::MouseKeyboard;
    activate_gamepad(
        &vec![GamepadEventKind::Connection, GamepadEventKind::Connection],
        &mut state,
    );
    assert_eq!(state, ActiveInput::MouseKeyboard);
    activate_gamepad(&Vec::new(), &mut state);
    assert_eq!(state, ActiveInput::MouseKeyboard);
}

#[test]
fn any_key_returns_to_mouse_and_keyboard() {
    let mut state = ActiveInput::Gamepad;
    activate_mkb(false, &mut state);
    assert_eq!(state, ActiveInput::Gamepad);
    activate_mkb(true, &mut state);
    assert_eq!(state, ActiveInput::MouseKeyboard);
}
