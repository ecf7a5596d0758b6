use kbgp::driver::{kbgp_system_default_input, DeviceSnapshot, GamepadSnapshot};
use kbgp::input::{KbgpInput, KEY_ARROW_DOWN, KEY_SPACE};
use kbgp::navigation::KbgpSettings;

fn snapshot() -> DeviceSnapshot {
    DeviceSnapshot {
        pressed_keys: vec![KEY_ARROW_DOWN, KEY_SPACE],
        pressed_mouse_buttons: vec![0],
        wheel_events: vec![(0, 1000)],
        gamepads: vec![GamepadSnapshot {
            id: 2,
            pressed_buttons: vec![kbgp::input::BUTTON_SOUTH],
            left_stick_x: Some(-900),
            left_stick_y: None,
            axes: vec![(kbgp::input::AXIS_LEFT_STICK_X, -900)],
        }],
    }
}

#[test]
fn default_scheme_collects_keyboard_and_gamepads() {
    let settings = KbgpSettings::<u8>::default();
    let (nav, pending) = kbgp_system_default_input(&settings, &snapshot());
    // Arrow key and left stick both navigate; space mimics activation and
    // the south button is bound to Click.
    assert!(nav.commands.down);
    assert!(nav.commands.left);
    assert!(nav.commands.click);
    assert!(!nav.commands.up);
    // The pressed set carries keyboard, mouse buttons and the gamepad, but
    // not the wheel: it is disabled by default.
    assert!(pending.current_input.contains(&KbgpInput::Keyboard(KEY_ARROW_DOWN)));
    assert!(pending.current_input.contains(&KbgpInput::MouseButton(0)));
    assert!(pending.current_input.contains(&KbgpInput::GamepadButton(
        2,
        kbgp::input::BUTTON_SOUTH
    )));
    assert!(pending.current_input.contains(&KbgpInput::GamepadAxisNegative(
        2,
        kbgp::input::AXIS_LEFT_STICK_X
    )));
    assert!(!pending.current_input.contains(&KbgpInput::MouseWheelUp));
}

#[test]
fn disabled_input_classes_are_not_collected() {
    let mut settings = KbgpSettings::<u8>::default();
    settings.allow_keyboard = false;
    settings.allow_gamepads = false;
    settings.allow_mouse_buttons = false;
    settings.allow_mouse_wheel = true;
    let (nav, pending) = kbgp_system_default_input(&settings, &snapshot());
    assert!(!nav.commands.down && !nav.commands.left && !nav.commands.click);
    // Only the wheel remains, now that it is enabled.
    assert_eq!(pending.current_input.len(), 1);
    assert!(pending.current_input.contains(&KbgpInput::MouseWheelUp));
}

#[test]
fn disabling_default_activation_stops_the_space_mimic() {
    let mut settings = KbgpSettings::<u8>::default();
    settings.disable_default_activation = true;
    let mut snap = snapshot();
    snap.gamepads.clear();
    let (nav, _) = kbgp_system_default_input(&settings, &snap);
    assert!(nav.commands.down);
    assert!(!nav.commands.click);
}
