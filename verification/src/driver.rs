//! The default input scheme: assemble one frame's collectors from a plain
//! snapshot of the devices, honoring the engine settings.
//!
//! A host reads its devices however it likes and fills a
//! [`DeviceSnapshot`]; this module turns the snapshot into the navigation
//! and pending-input collectors that [`crate::context::Kbgp::prepare`]
//! takes, enabling exactly the input classes the settings allow:
//! arrow keys and bound keys for navigation, d-pad and left stick on every
//! gamepad, and — for chord capture — the keyboard, the mouse buttons, the
//! mouse wheel and every gamepad's buttons and axes.

use vstd::prelude::*;

use crate::capture::{KbgpPreparePendingInput, axes_as_inputs_from, gamepad_buttons_as_inputs,
    keys_as_inputs, mouse_buttons_as_inputs, push_unique};
use crate::input::KbgpInput;
use crate::navigation::{KbgpNavBindings, KbgpNavCommand, KbgpPrepareNavigation, KbgpSettings,
    apply_axis_spec, apply_buttons_from, apply_keys_from, has_default_activation_key};

verus! {

/// One gamepad's state, read by the host: its pressed buttons and its axis
/// levels in thousandths of the full range.
pub struct GamepadSnapshot {
    /// The gamepad's identifier.
    pub id: u32,
    /// The buttons currently pressed.
    pub pressed_buttons: Vec<u16>,
    /// The left stick's horizontal level, if the axis exists.
    pub left_stick_x: Option<i32>,
    /// The left stick's vertical level, if the axis exists.
    pub left_stick_y: Option<i32>,
    /// Every axis with its current level, for chord capture.
    pub axes: Vec<(u16, i32)>,
}

/// Everything the devices report on one frame, as plain values.
pub struct DeviceSnapshot {
    /// The keyboard keys currently pressed.
    pub pressed_keys: Vec<u32>,
    /// The mouse buttons currently pressed.
    pub pressed_mouse_buttons: Vec<u16>,
    /// This frame's mouse wheel events, as scroll deltas in thousandths.
    pub wheel_events: Vec<(i32, i32)>,
    /// Every connected gamepad.
    pub gamepads: Vec<GamepadSnapshot>,
}

/// Fold one gamepad into the navigation collector: the left stick's
/// thresholded levels, then the pressed buttons through the bindings.
pub open spec fn nav_gamepad_once<A: Copy>(
    s: KbgpPrepareNavigation<A>,
    pad: GamepadSnapshot,
    binding: Seq<(u16, KbgpNavCommand<A>)>,
) -> KbgpPrepareNavigation<A> {
    apply_buttons_from(
        apply_axis_spec(
            apply_axis_spec(
                s,
                pad.left_stick_x,
                KbgpNavCommand::NavigateLeft,
                KbgpNavCommand::NavigateRight,
            ),
            pad.left_stick_y,
            KbgpNavCommand::NavigateDown,
            KbgpNavCommand::NavigateUp,
        ),
        pad.pressed_buttons@,
        0,
        binding,
    )
}

/// Fold the gamepads from index `i` on into the navigation collector.
pub open spec fn nav_gamepads_from<A: Copy>(
    s: KbgpPrepareNavigation<A>,
    pads: Seq<GamepadSnapshot>,
    i: int,
    binding: Seq<(u16, KbgpNavCommand<A>)>,
) -> KbgpPrepareNavigation<A>
    decreases pads.len() - i,
{
    if i < 0 || i >= pads.len() {
        s
    } else {
        nav_gamepads_from(nav_gamepad_once(s, pads[i], binding), pads, i + 1, binding)
    }
}

/// The navigation collector the default scheme builds: the keyboard when
/// allowed (mimicking the toolkit's Enter/space activation unless that was
/// disabled), then every gamepad when allowed.
pub open spec fn default_nav_collector<A: Copy>(
    settings: KbgpSettings<A>,
    snapshot: DeviceSnapshot,
    fresh: KbgpPrepareNavigation<A>,
) -> KbgpPrepareNavigation<A> {
    let with_keys = if settings.allow_keyboard {
        let applied = apply_keys_from(
            fresh,
            snapshot.pressed_keys@,
            0,
            settings.bindings.keyboard_seq(),
        );
        if !settings.disable_default_activation && has_default_activation_key(
            snapshot.pressed_keys@,
        ) {
            KbgpPrepareNavigation {
                commands: crate::bits::CommandBits { click: true, ..applied.commands },
                ..applied
            }
        } else {
            applied
        }
    } else {
        fresh
    };
    if settings.allow_gamepads {
        nav_gamepads_from(with_keys, snapshot.gamepads@, 0, settings.bindings.gamepad_seq())
    } else {
        with_keys
    }
}

/// Fold one mouse wheel event into the pressed set, honoring which
/// directions are enabled.
pub open spec fn wheel_once(
    s: Seq<KbgpInput>,
    delta_x: i32,
    delta_y: i32,
    vertical: bool,
    horizontal: bool,
) -> Seq<KbgpInput> {
    let s1 = if vertical && delta_y > 0 {
        push_unique(s, KbgpInput::MouseWheelUp)
    } else if vertical && delta_y < 0 {
        push_unique(s, KbgpInput::MouseWheelDown)
    } else {
        s
    };
    if horizontal && delta_x > 0 {
        push_unique(s1, KbgpInput::MouseWheelRight)
    } else if horizontal && delta_x < 0 {
        push_unique(s1, KbgpInput::MouseWheelLeft)
    } else {
        s1
    }
}

/// Fold the wheel events from index `i` on into the pressed set.
pub open spec fn wheel_from(
    s: Seq<KbgpInput>,
    events: Seq<(i32, i32)>,
    i: int,
    vertical: bool,
    horizontal: bool,
) -> Seq<KbgpInput>
    decreases events.len() - i,
{
    if i < 0 || i >= events.len() {
        s
    } else {
        wheel_from(
            wheel_once(s, events[i].0, events[i].1, vertical, horizontal),
            events,
            i + 1,
            vertical,
            horizontal,
        )
    }
}

/// Fold the gamepads from index `i` on into the pressed set: each pad's
/// buttons, then its thresholded axes.
pub open spec fn pending_gamepads_from(
    s: Seq<KbgpInput>,
    pads: Seq<GamepadSnapshot>,
    i: int,
) -> Seq<KbgpInput>
    decreases pads.len() - i,
{
    if i < 0 || i >= pads.len() {
        s
    } else {
        pending_gamepads_from(
            axes_as_inputs_from(
                s + gamepad_buttons_as_inputs(pads[i].id, pads[i].pressed_buttons@),
                pads[i].id,
                pads[i].axes@,
                0,
            ),
            pads,
            i + 1,
        )
    }
}

/// The pressed set the default scheme reports for chord capture: the
/// keyboard, the mouse buttons, the wheel and the gamepads, each when its
/// settings flag allows it.
pub open spec fn default_pending_collector<A: Copy>(
    settings: KbgpSettings<A>,
    snapshot: DeviceSnapshot,
) -> Seq<KbgpInput> {
    let s1 = if settings.allow_keyboard {
        keys_as_inputs(snapshot.pressed_keys@)
    } else {
        Seq::empty()
    };
    let s2 = if settings.allow_mouse_buttons {
        s1 + mouse_buttons_as_inputs(snapshot.pressed_mouse_buttons@)
    } else {
        s1
    };
    let s3 = if settings.allow_mouse_wheel || settings.allow_mouse_wheel_sideways {
        wheel_from(
            s2,
            snapshot.wheel_events@,
            0,
            settings.allow_mouse_wheel,
            settings.allow_mouse_wheel_sideways,
        )
    } else {
        s2
    };
    if settings.allow_gamepads {
        pending_gamepads_from(s3, snapshot.gamepads@, 0)
    } else {
        s3
    }
}

/// Operate the engine with the default input scheme: build both frame
/// collectors from a device snapshot, enabling exactly what the settings
/// allow.
pub fn kbgp_system_default_input<A: Copy>(
    settings: &KbgpSettings<A>,
    snapshot: &DeviceSnapshot,
) -> (r: (KbgpPrepareNavigation<A>, KbgpPreparePendingInput))
    ensures
        ({
            let fresh = KbgpPrepareNavigation {
                micros_after_first_input: crate::timing::DEFAULT_MICROS_AFTER_FIRST_INPUT,
                micros_between_inputs: crate::timing::DEFAULT_MICROS_BETWEEN_INPUTS,
                commands: crate::bits::CommandBits::empty(),
                user_action: None::<A>,
            };
            r.0 == default_nav_collector(*settings, *snapshot, fresh)
        }),
        r.1.current_input@ == default_pending_collector(*settings, *snapshot),
{
    let mut nav = KbgpPrepareNavigation::<A>::new();
    if settings.allow_keyboard {
        nav.navigate_keyboard_by_binding(
            &snapshot.pressed_keys,
            &settings.bindings,
            !settings.disable_default_activation,
        );
    }
    if settings.allow_gamepads {
        let ghost mid = nav;
        let n = snapshot.gamepads.len();
        let mut i: usize = 0;
        while i < n
            invariant
                n == snapshot.gamepads@.len(),
                i <= n,
                nav_gamepads_from(mid, snapshot.gamepads@, 0, settings.bindings.gamepad_seq())
                    == nav_gamepads_from(
                    nav,
                    snapshot.gamepads@,
                    i as int,
                    settings.bindings.gamepad_seq(),
                ),
            decreases n - i,
        {
            let pad = &snapshot.gamepads[i];
            nav.navigate_gamepad_by_binding(
                pad.left_stick_x,
                pad.left_stick_y,
                &pad.pressed_buttons,
                &settings.bindings,
            );
            i = i + 1;
        }
    }
    let mut pending = KbgpPreparePendingInput::new();
    if settings.allow_keyboard {
        pending.accept_keyboard_input(&snapshot.pressed_keys);
        proof {
            assert(pending.current_input@ =~= keys_as_inputs(snapshot.pressed_keys@));
        }
    }
    if settings.allow_mouse_buttons {
        pending.accept_mouse_buttons_input(&snapshot.pressed_mouse_buttons);
    }
    if settings.allow_mouse_wheel || settings.allow_mouse_wheel_sideways {
        let ghost mid = pending.current_input@;
        let n = snapshot.wheel_events.len();
        let mut i: usize = 0;
        while i < n
            invariant
                n == snapshot.wheel_events@.len(),
                i <= n,
                wheel_from(
                    mid,
                    snapshot.wheel_events@,
                    0,
                    settings.allow_mouse_wheel,
                    settings.allow_mouse_wheel_sideways,
                ) == wheel_from(
                    pending.current_input@,
                    snapshot.wheel_events@,
                    i as int,
                    settings.allow_mouse_wheel,
                    settings.allow_mouse_wheel_sideways,
                ),
            decreases n - i,
        {
            let (dx, dy) = snapshot.wheel_events[i];
            pending.accept_mouse_wheel_event(
                dx,
                dy,
                settings.allow_mouse_wheel,
                settings.allow_mouse_wheel_sideways,
            );
            i = i + 1;
        }
    }
    if settings.allow_gamepads {
        let ghost mid = pending.current_input@;
        let n = snapshot.gamepads.len();
        let mut i: usize = 0;
        while i < n
            invariant
                n == snapshot.gamepads@.len(),
                i <= n,
                pending_gamepads_from(mid, snapshot.gamepads@, 0) == pending_gamepads_from(
                    pending.current_input@,
                    snapshot.gamepads@,
                    i as int,
                ),
            decreases n - i,
        {
            let pad = &snapshot.gamepads[i];
            pending.accept_gamepad_input(pad.id, &pad.pressed_buttons, &pad.axes);
            i = i + 1;
        }
    }
    (nav, pending)
}

} // verus!
