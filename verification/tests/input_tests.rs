use kbgp::capture::KbgpPendingInputState;
use kbgp::capture::{CapturePolicy, InputFilter};
use kbgp::input::{KbgpInput, KbgpInputSource};
use kbgp::navigation::{KbgpNavBindings, KbgpNavCommand, KbgpSettings};

#[test]
fn sources_group_keyboard_and_mouse_together() {
    assert_eq!(
        KbgpInput::Keyboard(3).get_source(),
        KbgpInputSource::KeyboardAndMouse
    );
    assert_eq!(
        KbgpInput::MouseButton(1).get_source(),
        KbgpInputSource::KeyboardAndMouse
    );
    assert_eq!(
        KbgpInput::MouseWheelUp.get_source(),
        KbgpInputSource::KeyboardAndMouse
    );
    assert_eq!(
        KbgpInput::GamepadButton(4, 1).get_source(),
        KbgpInputSource::Gamepad(4)
    );
    assert_eq!(
        KbgpInput::GamepadAxisNegative(2, 1).get_source(),
        KbgpInputSource::Gamepad(2)
    );
}

#[test]
fn source_gamepad_accessor() {
    assert_eq!(KbgpInputSource::KeyboardAndMouse.gamepad(), None);
    assert_eq!(KbgpInputSource::Gamepad(3).gamepad(), Some(3));
}

#[test]
fn axis_poles_and_wheel_directions_are_opposites() {
    let pos = KbgpInput::GamepadAxisPositive(1, 2);
    let neg = KbgpInput::GamepadAxisNegative(1, 2);
    assert_eq!(pos.opposite_of(), Some(neg));
    assert_eq!(neg.opposite_of(), Some(pos));
    assert_eq!(KbgpInput::MouseWheelUp.opposite_of(), Some(KbgpInput::MouseWheelDown));
    assert_eq!(
        KbgpInput::MouseWheelLeft.opposite_of(),
        Some(KbgpInput::MouseWheelRight)
    );
    assert_eq!(KbgpInput::Keyboard(3).opposite_of(), None);
    assert_eq!(KbgpInput::GamepadButton(1, 2).opposite_of(), None);
}

#[test]
fn chord_formatting_joins_inputs_with_a_separator() {
    assert_eq!(KbgpInput::format_chord(&vec![]), "");
    assert_eq!(KbgpInput::format_chord(&vec![KbgpInput::Keyboard(5)]), "Key5");
    assert_eq!(
        KbgpInput::format_chord(&vec![KbgpInput::Keyboard(105)]),
        "Key105"
    );
    assert_eq!(
        KbgpInput::format_chord(&vec![
            KbgpInput::Keyboard(12),
            KbgpInput::MouseWheelUp,
            KbgpInput::MouseButton(2),
        ]),
        "Key12 & MouseScrollUp & MouseButton2"
    );
    assert_eq!(
        KbgpInput::format_chord(&vec![
            KbgpInput::GamepadButton(0, 5),
            KbgpInput::GamepadAxisPositive(10, 3),
            KbgpInput::GamepadAxisNegative(2, 6),
        ]),
        "[0]Button5 & [10]Axis3 & [2]-Axis6"
    );
}

#[test]
fn capture_state_formats_its_current_chord() {
    let mut state = KbgpPendingInputState::new(
        1,
        CapturePolicy { filter: InputFilter::Any, limit_one: false },
    );
    // Feed one frame where two keys are candidates.
    state.prepare(&vec![]);
    state.prepare(&vec![KbgpInput::Keyboard(7), KbgpInput::Keyboard(20)]);
    state.process_new_input();
    assert_eq!(state.format_current_chord(), "Key7 & Key20");
}

#[test]
fn default_bindings_map_arrows_dpad_and_south_button() {
    let b = KbgpNavBindings::<u8>::default();
    assert!(matches!(
        b.key_command(kbgp::input::KEY_ARROW_UP),
        Some(KbgpNavCommand::NavigateUp)
    ));
    assert!(matches!(
        b.key_command(kbgp::input::KEY_ARROW_DOWN),
        Some(KbgpNavCommand::NavigateDown)
    ));
    assert!(matches!(
        b.key_command(kbgp::input::KEY_ARROW_LEFT),
        Some(KbgpNavCommand::NavigateLeft)
    ));
    assert!(matches!(
        b.key_command(kbgp::input::KEY_ARROW_RIGHT),
        Some(KbgpNavCommand::NavigateRight)
    ));
    // Enter and space are deliberately not bound: the toolkit's own
    // activation handles them.
    assert!(b.key_command(kbgp::input::KEY_ENTER).is_none());
    assert!(b.key_command(kbgp::input::KEY_SPACE).is_none());
    assert!(matches!(
        b.button_command(kbgp::input::BUTTON_DPAD_UP),
        Some(KbgpNavCommand::NavigateUp)
    ));
    assert!(matches!(
        b.button_command(kbgp::input::BUTTON_SOUTH),
        Some(KbgpNavCommand::Click)
    ));
}

#[test]
fn rebinding_replaces_the_command_at_a_key() {
    let b = KbgpNavBindings::<u8>::empty()
        .with_key(40, KbgpNavCommand::NavigateUp)
        .with_key(40, KbgpNavCommand::Click);
    assert!(matches!(b.key_command(40), Some(KbgpNavCommand::Click)));
    assert!(b.key_command(41).is_none());
}

#[test]
fn wasd_and_gamepad_only_variants() {
    let b = KbgpNavBindings::<u8>::empty().with_wasd_navigation();
    assert!(matches!(b.key_command(kbgp::input::KEY_W), Some(KbgpNavCommand::NavigateUp)));
    assert!(matches!(b.key_command(kbgp::input::KEY_A), Some(KbgpNavCommand::NavigateLeft)));
    let g = KbgpNavBindings::<u8>::default_gamepad_only();
    assert!(g.key_command(kbgp::input::KEY_ARROW_UP).is_none());
    assert!(matches!(
        g.button_command(kbgp::input::BUTTON_DPAD_LEFT),
        Some(KbgpNavCommand::NavigateLeft)
    ));
}

#[test]
fn user_commands_carry_their_payload() {
    let cmd = KbgpNavCommand::user(7u8);
    assert!(matches!(cmd, KbgpNavCommand::User(7)));
}

#[test]
fn default_settings_enable_everything_but_the_mouse_wheel() {
    let s = KbgpSettings::<u8>::default();
    assert!(!s.disable_default_navigation);
    assert!(!s.disable_default_activation);
    assert!(!s.prevent_loss_of_focus);
    assert!(!s.focus_on_mouse_movement);
    assert!(s.allow_keyboard);
    assert!(s.allow_mouse_buttons);
    assert!(!s.allow_mouse_wheel);
    assert!(!s.allow_mouse_wheel_sideways);
    assert!(s.allow_gamepads);
    assert!(matches!(
        s.bindings.key_command(kbgp::input::KEY_ARROW_UP),
        Some(KbgpNavCommand::NavigateUp)
    ));
}
