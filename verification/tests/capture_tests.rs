use kbgp::capture::KbgpPreparePendingInput;
use kbgp::context::Kbgp;
use kbgp::input::{KbgpInput, KbgpInputSource, AXIS_LEFT_STICK_X};
use kbgp::navigation::KbgpPrepareNavigation;

// Drive one capture frame: the host reports the currently pressed inputs,
// then the widget runs its pending-input query.
fn capture_frame(kbgp: &mut Kbgp<u8>, now: u64, pressed: Vec<KbgpInput>) -> KbgpPreparePendingInput {
    let mut pending = KbgpPreparePendingInput::new();
    let nav = KbgpPrepareNavigation::<u8>::new();
    for inp in pressed {
        pending.accept_input(inp);
    }
    kbgp.prepare(now, Some(10), &nav, &pending);
    pending
}

fn enter_chord_capture(kbgp: &mut Kbgp<u8>) {
    // The click that turns the node into a recorder.
    assert_eq!(kbgp.kbgp_pending_chord(10, true), None);
    assert_eq!(kbgp.kbgp_pending_acceptor(), Some(10));
}

#[test]
fn chord_of_two_keys_is_exactly_those_two_keys() {
    let mut kbgp = Kbgp::<u8>::new();
    enter_chord_capture(&mut kbgp);
    // First frame: nothing pressed, the baseline is taken (empty).
    kbgp.kbgp_navigation(10, kbgp::registry::Rect::new(0, 0, 10, 10));
    capture_frame(&mut kbgp, 0, vec![]);
    assert_eq!(kbgp.kbgp_pending_chord(10, false), None);
    // Two keys pressed and held together.
    let a = KbgpInput::Keyboard(100);
    let b = KbgpInput::Keyboard(101);
    kbgp.kbgp_navigation(10, kbgp::registry::Rect::new(0, 0, 10, 10));
    capture_frame(&mut kbgp, 16000, vec![a, b]);
    assert_eq!(kbgp.kbgp_pending_chord(10, false), None);
    // Both released: the capture completes with exactly those two keys.
    kbgp.kbgp_navigation(10, kbgp::registry::Rect::new(0, 0, 10, 10));
    capture_frame(&mut kbgp, 32000, vec![]);
    let chord = kbgp.kbgp_pending_chord(10, false).unwrap();
    assert_eq!(chord.len(), 2);
    assert!(chord.contains(&a));
    assert!(chord.contains(&b));
    assert_eq!(kbgp.kbgp_pending_acceptor(), None);
}

#[test]
fn opposite_axis_pole_evicts_the_first_one() {
    let mut kbgp = Kbgp::<u8>::new();
    enter_chord_capture(&mut kbgp);
    let pos = KbgpInput::GamepadAxisPositive(0, AXIS_LEFT_STICK_X);
    let neg = KbgpInput::GamepadAxisNegative(0, AXIS_LEFT_STICK_X);
    kbgp.kbgp_navigation(10, kbgp::registry::Rect::new(0, 0, 10, 10));
    capture_frame(&mut kbgp, 0, vec![]);
    assert_eq!(kbgp.kbgp_pending_chord(10, false), None);
    // The positive pole is pressed first...
    kbgp.kbgp_navigation(10, kbgp::registry::Rect::new(0, 0, 10, 10));
    capture_frame(&mut kbgp, 16000, vec![pos]);
    assert_eq!(kbgp.kbgp_pending_chord(10, false), None);
    // ...then the negative pole within the same session.
    kbgp.kbgp_navigation(10, kbgp::registry::Rect::new(0, 0, 10, 10));
    capture_frame(&mut kbgp, 32000, vec![neg]);
    assert_eq!(kbgp.kbgp_pending_chord(10, false), None);
    // Everything released: only the negative pole is in the final set.
    kbgp.kbgp_navigation(10, kbgp::registry::Rect::new(0, 0, 10, 10));
    capture_frame(&mut kbgp, 48000, vec![]);
    let chord = kbgp.kbgp_pending_chord(10, false).unwrap();
    assert_eq!(chord.len(), 1);
    assert!(chord.contains(&neg));
}

#[test]
fn inputs_held_at_capture_start_are_ignored_until_released_once() {
    let mut kbgp = Kbgp::<u8>::new();
    let held = KbgpInput::Keyboard(42);
    assert_eq!(kbgp.kbgp_pending_input(10, true), None);
    // The key was already down when the capture started: it becomes the
    // ignored baseline.
    kbgp.kbgp_navigation(10, kbgp::registry::Rect::new(0, 0, 10, 10));
    capture_frame(&mut kbgp, 0, vec![held]);
    assert_eq!(kbgp.kbgp_pending_input(10, false), None);
    // Still held: it does not count toward the chord.
    kbgp.kbgp_navigation(10, kbgp::registry::Rect::new(0, 0, 10, 10));
    capture_frame(&mut kbgp, 16000, vec![held]);
    assert_eq!(kbgp.kbgp_pending_input(10, false), None);
    // Released once...
    kbgp.kbgp_navigation(10, kbgp::registry::Rect::new(0, 0, 10, 10));
    capture_frame(&mut kbgp, 32000, vec![]);
    assert_eq!(kbgp.kbgp_pending_input(10, false), None);
    // ...and pressed again: now it does count.
    kbgp.kbgp_navigation(10, kbgp::registry::Rect::new(0, 0, 10, 10));
    capture_frame(&mut kbgp, 48000, vec![held]);
    assert_eq!(kbgp.kbgp_pending_input(10, false), None);
    kbgp.kbgp_navigation(10, kbgp::registry::Rect::new(0, 0, 10, 10));
    capture_frame(&mut kbgp, 64000, vec![]);
    assert_eq!(kbgp.kbgp_pending_input(10, false), Some(held));
}

#[test]
fn single_input_completes_even_while_other_keys_stay_down() {
    let mut kbgp = Kbgp::<u8>::new();
    let wanted = KbgpInput::Keyboard(7);
    let extra = KbgpInput::Keyboard(8);
    assert_eq!(kbgp.kbgp_pending_input(10, true), None);
    kbgp.kbgp_navigation(10, kbgp::registry::Rect::new(0, 0, 10, 10));
    capture_frame(&mut kbgp, 0, vec![]);
    assert_eq!(kbgp.kbgp_pending_input(10, false), None);
    // The first key joins; the second is rejected by the single-input
    // limit.
    kbgp.kbgp_navigation(10, kbgp::registry::Rect::new(0, 0, 10, 10));
    capture_frame(&mut kbgp, 16000, vec![wanted, extra]);
    assert_eq!(kbgp.kbgp_pending_input(10, false), None);
    // The received key is released while the extra stays down: the capture
    // completes regardless.
    kbgp.kbgp_navigation(10, kbgp::registry::Rect::new(0, 0, 10, 10));
    capture_frame(&mut kbgp, 32000, vec![extra]);
    assert_eq!(kbgp.kbgp_pending_input(10, false), Some(wanted));
}

#[test]
fn source_limited_capture_rejects_other_sources() {
    let mut kbgp = Kbgp::<u8>::new();
    let key = KbgpInput::Keyboard(7);
    let button = KbgpInput::GamepadButton(1, 3);
    assert_eq!(
        kbgp.kbgp_pending_input_of_source(10, true, KbgpInputSource::Gamepad(1)),
        None
    );
    kbgp.kbgp_navigation(10, kbgp::registry::Rect::new(0, 0, 10, 10));
    capture_frame(&mut kbgp, 0, vec![]);
    assert_eq!(
        kbgp.kbgp_pending_input_of_source(10, false, KbgpInputSource::Gamepad(1)),
        None
    );
    // A keyboard key is pressed and released: it never joins.
    kbgp.kbgp_navigation(10, kbgp::registry::Rect::new(0, 0, 10, 10));
    capture_frame(&mut kbgp, 16000, vec![key]);
    assert_eq!(
        kbgp.kbgp_pending_input_of_source(10, false, KbgpInputSource::Gamepad(1)),
        None
    );
    // The gamepad button is pressed and released: it is the answer.
    kbgp.kbgp_navigation(10, kbgp::registry::Rect::new(0, 0, 10, 10));
    capture_frame(&mut kbgp, 32000, vec![button]);
    assert_eq!(
        kbgp.kbgp_pending_input_of_source(10, false, KbgpInputSource::Gamepad(1)),
        None
    );
    kbgp.kbgp_navigation(10, kbgp::registry::Rect::new(0, 0, 10, 10));
    capture_frame(&mut kbgp, 48000, vec![]);
    assert_eq!(
        kbgp.kbgp_pending_input_of_source(10, false, KbgpInputSource::Gamepad(1)),
        Some(button)
    );
}

#[test]
fn same_source_chord_keeps_one_device_family() {
    let mut kbgp = Kbgp::<u8>::new();
    let key_a = KbgpInput::Keyboard(1);
    let key_b = KbgpInput::Keyboard(2);
    let button = KbgpInput::GamepadButton(0, 3);
    assert_eq!(kbgp.kbgp_pending_chord_same_source(10, true), None);
    kbgp.kbgp_navigation(10, kbgp::registry::Rect::new(0, 0, 10, 10));
    capture_frame(&mut kbgp, 0, vec![]);
    assert_eq!(kbgp.kbgp_pending_chord_same_source(10, false), None);
    // Keyboard first; the gamepad button pressed along the way must not
    // join the chord.
    kbgp.kbgp_navigation(10, kbgp::registry::Rect::new(0, 0, 10, 10));
    capture_frame(&mut kbgp, 16000, vec![key_a, button, key_b]);
    assert_eq!(kbgp.kbgp_pending_chord_same_source(10, false), None);
    kbgp.kbgp_navigation(10, kbgp::registry::Rect::new(0, 0, 10, 10));
    capture_frame(&mut kbgp, 32000, vec![]);
    let chord = kbgp.kbgp_pending_chord_same_source(10, false).unwrap();
    assert_eq!(chord.len(), 2);
    assert!(chord.contains(&key_a));
    assert!(chord.contains(&key_b));
    assert!(!chord.contains(&button));
}

#[test]
fn abandoned_capture_returns_to_navigation_when_the_node_disappears() {
    let mut kbgp = Kbgp::<u8>::new();
    assert_eq!(kbgp.kbgp_pending_chord(10, true), None);
    assert_eq!(kbgp.kbgp_pending_acceptor(), Some(10));
    // The acceptor node is never registered again: after the sweep leaves
    // the registry empty, the capture is abandoned.
    let nav = KbgpPrepareNavigation::<u8>::new();
    let pending = KbgpPreparePendingInput::new();
    kbgp.prepare(0, None, &nav, &pending);
    assert_eq!(kbgp.kbgp_pending_acceptor(), None);
}

#[test]
fn collectors_threshold_axes_and_dedup_wheel() {
    let mut pending = KbgpPreparePendingInput::new();
    // Buttons plus one axis past each threshold and one in the dead zone.
    pending.accept_gamepad_input(
        2,
        &vec![4u16, 5u16],
        &vec![(1u16, 800), (2u16, -800), (3u16, 300)],
    );
    assert_eq!(pending.current_input.len(), 4);
    assert!(pending.current_input.contains(&KbgpInput::GamepadButton(2, 4)));
    assert!(pending.current_input.contains(&KbgpInput::GamepadButton(2, 5)));
    assert!(pending.current_input.contains(&KbgpInput::GamepadAxisPositive(2, 1)));
    assert!(pending.current_input.contains(&KbgpInput::GamepadAxisNegative(2, 2)));
    // Two wheel events in the same direction collapse to one input.
    let mut wheel = KbgpPreparePendingInput::new();
    wheel.accept_mouse_wheel_event(0, 1000, true, false);
    wheel.accept_mouse_wheel_event(0, 500, true, false);
    assert_eq!(wheel.current_input.len(), 1);
    assert!(wheel.current_input.contains(&KbgpInput::MouseWheelUp));
    // Sideways scrolling only counts when enabled.
    wheel.accept_mouse_wheel_event(-1000, 0, true, false);
    assert_eq!(wheel.current_input.len(), 1);
    wheel.accept_mouse_wheel_event(-1000, 0, true, true);
    assert!(wheel.current_input.contains(&KbgpInput::MouseWheelLeft));
}
