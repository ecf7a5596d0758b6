use kbgp::bits::CommandBits;
use kbgp::navigation::{KbgpNavActivation, KbgpPrepareNavigation};
use kbgp::capture::KbgpPreparePendingInput;
use kbgp::context::Kbgp;
use kbgp::release::PendingReleaseState;

fn click() -> CommandBits {
    let mut c = CommandBits::new();
    c.click = true;
    c
}

fn user() -> CommandBits {
    let mut c = CommandBits::new();
    c.user = true;
    c
}

// Each transition rule exercised in isolation, by constructing the variant
// directly.

#[test]
fn idle_with_click_and_focus_starts_a_node_hold() {
    let s = PendingReleaseState::<u8>::Idle.step(click(), Some(5), None);
    assert!(matches!(
        s,
        PendingReleaseState::NodeHeld { id: 5, is_user_action: false, user_action: None }
    ));
}

#[test]
fn idle_with_user_action_and_no_focus_holds_globally() {
    let s = PendingReleaseState::<u8>::Idle.step(user(), None, Some(7));
    assert!(matches!(s, PendingReleaseState::GloballyHeld { user_action: Some(7) }));
}

#[test]
fn held_click_stays_held_and_reports_nothing() {
    let held = PendingReleaseState::<u8>::NodeHeld {
        id: 5,
        is_user_action: false,
        user_action: None,
    };
    let s = held.step(click(), Some(5), None);
    assert!(matches!(
        s,
        PendingReleaseState::NodeHeld { id: 5, is_user_action: false, user_action: None }
    ));
}

#[test]
fn releasing_on_the_same_node_pulses_once() {
    let held = PendingReleaseState::<u8>::NodeHeld {
        id: 5,
        is_user_action: false,
        user_action: None,
    };
    let released = held.step(CommandBits::new(), Some(5), None);
    assert!(matches!(
        released,
        PendingReleaseState::NodeHoldReleased { id: 5, user_action: None }
    ));
    // The pulse lasts exactly one frame.
    let after = released.step(CommandBits::new(), Some(5), None);
    assert!(matches!(after, PendingReleaseState::Idle));
}

#[test]
fn focus_change_while_held_fires_no_release() {
    let held = PendingReleaseState::<u8>::NodeHeld {
        id: 5,
        is_user_action: false,
        user_action: None,
    };
    let s = held.step(CommandBits::new(), Some(6), None);
    assert!(matches!(s, PendingReleaseState::Idle));
}

#[test]
fn mixed_activation_classes_invalidate() {
    let held = PendingReleaseState::<u8>::NodeHeld {
        id: 5,
        is_user_action: false,
        user_action: None,
    };
    let mut both = click();
    both.user = true;
    let s = held.step(both, Some(5), None);
    assert!(matches!(s, PendingReleaseState::Invalidated { cooldown_frame: false }));
}

#[test]
fn invalidated_waits_for_the_click_to_clear() {
    let s = PendingReleaseState::<u8>::Invalidated { cooldown_frame: false };
    let still = s.step(click(), Some(5), None);
    assert!(matches!(still, PendingReleaseState::Invalidated { cooldown_frame: false }));
    let done = still.step(CommandBits::new(), Some(5), None);
    assert!(matches!(done, PendingReleaseState::Idle));
}

#[test]
fn global_hold_releases_without_a_focus_precondition() {
    let held = PendingReleaseState::<u8>::GloballyHeld { user_action: Some(9) };
    let s = held.step(CommandBits::new(), None, None);
    assert!(matches!(s, PendingReleaseState::GlobalHoldReleased { user_action: 9 }));
    let after = s.step(CommandBits::new(), None, None);
    assert!(matches!(after, PendingReleaseState::Idle));
}

// The same behavior end to end, through the engine context: a Click bound
// to a gamepad button, held and released while focus stays on the node.

fn frame(
    kbgp: &mut Kbgp<u8>,
    now: u64,
    focus: Option<u64>,
    commands: CommandBits,
) {
    let mut nav = KbgpPrepareNavigation::<u8>::new();
    nav.commands = commands;
    let pending = KbgpPreparePendingInput::new();
    kbgp.prepare(now, focus, &nav, &pending);
}

#[test]
fn click_hold_release_produces_exactly_one_clicked_pulse() {
    let mut kbgp = Kbgp::<u8>::new();
    // Press: the hold starts; the release query reports nothing.
    frame(&mut kbgp, 0, Some(5), click());
    assert!(matches!(
        kbgp.kbgp_activate_released(5, false, false, false, true),
        KbgpNavActivation::Idle
    ));
    // Still held: nothing.
    frame(&mut kbgp, 16000, Some(5), click());
    assert!(matches!(
        kbgp.kbgp_activate_released(5, false, false, false, true),
        KbgpNavActivation::Idle
    ));
    // Released with focus still on the node: exactly one Clicked.
    frame(&mut kbgp, 32000, Some(5), CommandBits::new());
    assert!(matches!(
        kbgp.kbgp_activate_released(5, false, false, false, true),
        KbgpNavActivation::Clicked
    ));
    assert!(kbgp.kbgp_click_released(5, false));
    // The next frame the pulse is gone.
    frame(&mut kbgp, 48000, Some(5), CommandBits::new());
    assert!(matches!(
        kbgp.kbgp_activate_released(5, false, false, false, true),
        KbgpNavActivation::Idle
    ));
    assert!(!kbgp.kbgp_click_released(5, false));
}

#[test]
fn click_hold_with_focus_moving_away_fires_nothing() {
    let mut kbgp = Kbgp::<u8>::new();
    frame(&mut kbgp, 0, Some(5), click());
    // Focus moves to another node mid-hold, then the button is released.
    frame(&mut kbgp, 16000, Some(6), CommandBits::new());
    assert!(matches!(
        kbgp.kbgp_activate_released(5, false, false, false, false),
        KbgpNavActivation::Idle
    ));
    assert!(!kbgp.kbgp_click_released(5, false));
    assert!(!kbgp.kbgp_click_released(6, false));
}

#[test]
fn user_action_released_globally_is_reported_once() {
    let mut kbgp = Kbgp::<u8>::new();
    let mut nav = KbgpPrepareNavigation::<u8>::new();
    nav.commands = user();
    nav.user_action = Some(9);
    let pending = KbgpPreparePendingInput::new();
    // Press with no focus: the action fires and a global hold starts.
    kbgp.prepare(0, None, &nav, &pending);
    assert_eq!(kbgp.kbgp_user_action(), Some(9));
    // Still held: the machine captures the payload.
    kbgp.prepare(16000, None, &nav, &pending);
    // Released.
    frame(&mut kbgp, 32000, None, CommandBits::new());
    assert_eq!(kbgp.kbgp_user_action_released(), Some(9));
    frame(&mut kbgp, 48000, None, CommandBits::new());
    assert_eq!(kbgp.kbgp_user_action_released(), None);
}
