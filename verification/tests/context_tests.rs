use kbgp::bits::CommandBits;
use kbgp::capture::KbgpPreparePendingInput;
use kbgp::context::{Kbgp, KbgpPrepareOutput};
use kbgp::navigation::{KbgpNavActivation, KbgpNavBindings, KbgpPrepareNavigation};
use kbgp::registry::Rect;

fn frame(
    kbgp: &mut Kbgp<u8>,
    now: u64,
    focus: Option<u64>,
    nav: &KbgpPrepareNavigation<u8>,
) -> KbgpPrepareOutput {
    let pending = KbgpPreparePendingInput::new();
    kbgp.prepare(now, focus, nav, &pending)
}

fn user_frame() -> KbgpPrepareNavigation<u8> {
    let mut nav = KbgpPrepareNavigation::<u8>::new();
    nav.commands.user = true;
    nav.user_action = Some(9);
    nav
}

#[test]
fn clear_input_silences_the_rest_of_this_frame_and_the_next() {
    let mut kbgp = Kbgp::<u8>::new();
    let nav = user_frame();
    frame(&mut kbgp, 0, Some(1), &nav);
    // The press fires the user action.
    assert_eq!(kbgp.kbgp_user_action(), Some(9));
    // The application reacts with a state transition and clears the input:
    // the rest of this frame's queries see nothing.
    kbgp.kbgp_clear_input();
    assert_eq!(kbgp.kbgp_user_action(), None);
    assert_eq!(kbgp.kbgp_user_action_released(), None);
    // Next frame the physical key is still held: the query still answers
    // nothing.
    frame(&mut kbgp, 16000, Some(1), &nav);
    assert_eq!(kbgp.kbgp_user_action(), None);
    assert_eq!(kbgp.kbgp_user_action_released(), None);
}

#[test]
fn user_action_fires_again_on_a_fresh_press() {
    let mut kbgp = Kbgp::<u8>::new();
    let nav = user_frame();
    frame(&mut kbgp, 0, Some(1), &nav);
    kbgp.kbgp_clear_input();
    // Released...
    frame(&mut kbgp, 16000, Some(1), &KbgpPrepareNavigation::<u8>::new());
    assert_eq!(kbgp.kbgp_user_action(), None);
    // ...and pressed again: a fresh edge fires immediately.
    frame(&mut kbgp, 32000, Some(1), &nav);
    assert_eq!(kbgp.kbgp_user_action(), Some(9));
}

#[test]
fn focus_label_redirect_is_honored_next_frame() {
    let mut kbgp = Kbgp::<u8>::new();
    let nav = KbgpPrepareNavigation::<u8>::new();
    kbgp.kbgp_navigation(33, Rect::new(0, 0, 10, 10));
    // The application asks for the node labeled 7 to be focused.
    kbgp.kbgp_set_focus_label(7);
    frame(&mut kbgp, 0, None, &nav);
    // During this frame's layout, the node labeled 7 claims the label.
    kbgp.kbgp_navigation(33, Rect::new(0, 0, 10, 10));
    kbgp.kbgp_focus_label(33, 7);
    // The next frame's prepare asks the toolkit to focus it.
    let out = frame(&mut kbgp, 16000, None, &nav);
    assert_eq!(out.request_focus, Some(33));
}

#[test]
fn unclaimed_focus_label_is_silently_dropped() {
    let mut kbgp = Kbgp::<u8>::new();
    let nav = KbgpPrepareNavigation::<u8>::new();
    kbgp.kbgp_navigation(33, Rect::new(0, 0, 10, 10));
    kbgp.kbgp_set_focus_label(7);
    frame(&mut kbgp, 0, None, &nav);
    // No node claims label 7 during layout.
    kbgp.kbgp_navigation(33, Rect::new(0, 0, 10, 10));
    kbgp.kbgp_focus_label(33, 8);
    let out = frame(&mut kbgp, 16000, None, &nav);
    assert_eq!(out.request_focus, None);
}

#[test]
fn initial_focus_is_granted_when_the_ui_first_appears() {
    let mut kbgp = Kbgp::<u8>::new();
    let nav = KbgpPrepareNavigation::<u8>::new();
    // First frame: no node is registered yet, so the reserved initial
    // label becomes pending.
    frame(&mut kbgp, 0, None, &nav);
    // The UI is built for the first time and a node claims initial focus.
    kbgp.kbgp_navigation(44, Rect::new(0, 0, 10, 10));
    kbgp.kbgp_initial_focus(44);
    let out = frame(&mut kbgp, 16000, None, &nav);
    assert_eq!(out.request_focus, Some(44));
}

#[test]
fn nodes_not_reregistered_are_evicted_after_the_tolerance_frame() {
    let mut kbgp = Kbgp::<u8>::new();
    let nav = KbgpPrepareNavigation::<u8>::new();
    kbgp.kbgp_navigation(1, Rect::new(0, 0, 10, 10));
    // One boundary: the entry survives unseen.
    frame(&mut kbgp, 0, None, &nav);
    assert!(!kbgp.common.is_empty());
    // A second boundary without re-registration evicts it.
    frame(&mut kbgp, 16000, None, &nav);
    assert!(kbgp.common.is_empty());
}

#[test]
fn direction_press_moves_focus_and_repeats_are_throttled() {
    let mut kbgp = Kbgp::<u8>::new();
    let mut nav = KbgpPrepareNavigation::<u8>::new();
    nav.commands.down = true;
    // Register two stacked nodes every frame.
    kbgp.kbgp_navigation(1, Rect::new(0, 0, 10, 10));
    kbgp.kbgp_navigation(2, Rect::new(0, 20, 10, 30));
    // The press edge moves the focus down.
    let out = frame(&mut kbgp, 0, Some(1), &nav);
    assert_eq!(out.request_focus, Some(2));
    // Held on the next frame, inside the first delay: no move.
    kbgp.kbgp_navigation(1, Rect::new(0, 0, 10, 10));
    kbgp.kbgp_navigation(2, Rect::new(0, 20, 10, 30));
    let out = frame(&mut kbgp, 16000, Some(1), &nav);
    assert_eq!(out.request_focus, None);
    // Held past the first delay: the move repeats.
    kbgp.kbgp_navigation(1, Rect::new(0, 0, 10, 10));
    kbgp.kbgp_navigation(2, Rect::new(0, 20, 10, 30));
    let out = frame(&mut kbgp, 700000, Some(1), &nav);
    assert_eq!(out.request_focus, Some(2));
}

#[test]
fn click_command_synthesizes_a_click_event() {
    let mut kbgp = Kbgp::<u8>::new();
    let mut nav = KbgpPrepareNavigation::<u8>::new();
    nav.commands.click = true;
    let out = frame(&mut kbgp, 0, Some(1), &nav);
    assert!(out.synthesize_click);
    // Held: the synthetic click is not repeated within the delay.
    let out = frame(&mut kbgp, 16000, Some(1), &nav);
    assert!(!out.synthesize_click);
}

#[test]
fn activated_reports_clicks_before_user_actions() {
    let mut kbgp = Kbgp::<u8>::new();
    let nav = user_frame();
    frame(&mut kbgp, 0, Some(1), &nav);
    assert!(matches!(
        kbgp.kbgp_activated(true, false, false, true),
        KbgpNavActivation::Clicked
    ));
    assert!(matches!(
        kbgp.kbgp_activated(false, true, false, true),
        KbgpNavActivation::ClickedSecondary
    ));
    assert!(matches!(
        kbgp.kbgp_activated(false, false, true, true),
        KbgpNavActivation::ClickedMiddle
    ));
    assert!(matches!(
        kbgp.kbgp_activated(false, false, false, true),
        KbgpNavActivation::User(9)
    ));
    // Without focus the user action is not attributed to the node.
    assert!(matches!(
        kbgp.kbgp_activated(false, false, false, false),
        KbgpNavActivation::Idle
    ));
}

#[test]
fn prevent_loss_of_focus_restores_the_last_focused_node() {
    let mut kbgp = Kbgp::<u8>::new();
    assert_eq!(kbgp.kbgp_prevent_loss_of_focus(Some(3)), None);
    // The toolkit dropped the focus: the engine asks to restore it.
    assert_eq!(kbgp.kbgp_prevent_loss_of_focus(None), Some(3));
    // Nothing left to restore afterwards.
    assert_eq!(kbgp.kbgp_prevent_loss_of_focus(None), None);
}

#[test]
fn mouse_movement_focuses_the_node_it_enters() {
    let mut kbgp = Kbgp::<u8>::new();
    kbgp.kbgp_navigation(5, Rect::new(0, 0, 10, 10));
    // The pointer enters the node: focus it once.
    assert_eq!(kbgp.kbgp_focus_on_mouse_movement(Some((5, 5))), Some(5));
    // Staying on the same node does not re-request focus.
    assert_eq!(kbgp.kbgp_focus_on_mouse_movement(Some((6, 6))), None);
    // Leaving it changes the remembered node but requests nothing.
    assert_eq!(kbgp.kbgp_focus_on_mouse_movement(Some((50, 50))), None);
    // Coming back requests focus again.
    assert_eq!(kbgp.kbgp_focus_on_mouse_movement(Some((5, 5))), Some(5));
}

#[test]
fn keyboard_binding_drives_navigation_commands() {
    let bindings = KbgpNavBindings::<u8>::default();
    let mut nav = KbgpPrepareNavigation::<u8>::new();
    nav.navigate_keyboard_by_binding(&vec![kbgp::input::KEY_ARROW_DOWN], &bindings, true);
    assert!(nav.commands.down);
    assert!(!nav.commands.up);
    assert!(!nav.commands.click);
    // Space mimics the toolkit's own activation when asked to.
    let mut nav = KbgpPrepareNavigation::<u8>::new();
    nav.navigate_keyboard_by_binding(&vec![kbgp::input::KEY_SPACE], &bindings, true);
    assert!(nav.commands.click);
    let mut nav = KbgpPrepareNavigation::<u8>::new();
    nav.navigate_keyboard_by_binding(&vec![kbgp::input::KEY_SPACE], &bindings, false);
    assert!(!nav.commands.click);
}

#[test]
fn gamepad_stick_and_buttons_drive_navigation_commands() {
    let bindings = KbgpNavBindings::<u8>::default();
    let mut nav = KbgpPrepareNavigation::<u8>::new();
    // Left stick pushed left and up past the threshold.
    nav.navigate_gamepad_by_binding(Some(-800), Some(800), &vec![], &bindings);
    assert!(nav.commands.left);
    assert!(nav.commands.up);
    assert!(!nav.commands.down);
    // In the dead zone nothing fires.
    let mut nav = KbgpPrepareNavigation::<u8>::new();
    nav.navigate_gamepad_by_binding(Some(-300), Some(300), &vec![], &bindings);
    assert!(!nav.commands.left && !nav.commands.right && !nav.commands.up && !nav.commands.down);
    // The south button clicks through the default bindings.
    let mut nav = KbgpPrepareNavigation::<u8>::new();
    nav.navigate_gamepad_by_binding(None, None, &vec![kbgp::input::BUTTON_SOUTH], &bindings);
    assert!(nav.commands.click);
}
