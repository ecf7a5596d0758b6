//! Abstract navigation commands, the binding tables that map physical
//! inputs to them, and the per-frame command collector.
//!
//! A physical input is bound to one of six commands: the four directions,
//! Click, or a user action carrying a host-chosen payload. Keyboard keys and
//! gamepad buttons are freely bindable; the gamepad's left stick is
//! hard-wired to the four directions. The payload type `A` is any `Copy`
//! value of the host's choosing: a fresh copy is handed out per activation.

use vstd::prelude::*;

use crate::assoc::{lemma_pair_find_membership, lemma_pair_find_push, lemma_pair_find_update,
    pair_find, unique_keys};
use crate::bits::CommandBits;
use crate::input::{BUTTON_DPAD_DOWN, BUTTON_DPAD_LEFT, BUTTON_DPAD_RIGHT, BUTTON_DPAD_UP,
    BUTTON_SOUTH, KEY_A, KEY_ARROW_DOWN, KEY_ARROW_LEFT, KEY_ARROW_RIGHT, KEY_ARROW_UP, KEY_D,
    KEY_ENTER, KEY_NUMPAD_ENTER, KEY_S, KEY_SPACE, KEY_W};

verus! {

/// An abstract navigation command a physical input can be bound to.
#[derive(Clone, Copy, Debug)]
pub enum KbgpNavCommand<A> {
    /// Move the focus one node up; with nothing focused, start from the
    /// bottom.
    NavigateUp,
    /// Move the focus one node down; with nothing focused, start from the
    /// top.
    NavigateDown,
    /// Move the focus one node left; with nothing focused, start as `NavigateUp` would.
    NavigateLeft,
    /// Move the focus one node right; with nothing focused, start as `NavigateDown` would.
    NavigateRight,
    /// Activate the focused node as a click.
    Click,
    /// Activate a host-defined action carrying a payload.
    User(A),
}

impl<A: Copy> KbgpNavCommand<A> {
    /// Build a user command around a payload value.
    pub fn user(value: A) -> (r: Self)
        ensures
            r == KbgpNavCommand::User(value),
    {
        KbgpNavCommand::User(value)
    }
}

/// How a node was activated this frame.
#[derive(Clone, Copy, PartialEq, Debug)]
pub enum KbgpNavActivation<T> {
    /// The node was not activated this frame.
    Idle,
    /// The node's primary function was activated.
    Clicked,
    /// The node was right-clicked.
    ClickedSecondary,
    /// The node was middle-clicked.
    ClickedMiddle,
    /// A user action fired while the focus was on this node.
    User(T),
}

/// The commands collected from the devices for one frame, together with the
/// repeat timing the host asked for.
pub struct KbgpPrepareNavigation<A> {
    /// Wait this long after the first input before repeating, in
    /// microseconds.
    pub micros_after_first_input: u64,
    /// Space repeated inputs this far apart, in microseconds.
    pub micros_between_inputs: u64,
    /// The raw command set asserted this frame.
    pub commands: CommandBits,
    /// The payload of the user command asserted this frame, if any.
    pub user_action: Option<A>,
}

/// Assert one command on the collected set; a user command also records its
/// payload.
pub open spec fn apply_action_spec<A>(
    s: KbgpPrepareNavigation<A>,
    cmd: KbgpNavCommand<A>,
) -> KbgpPrepareNavigation<A> {
    match cmd {
        KbgpNavCommand::NavigateUp => KbgpPrepareNavigation {
            commands: CommandBits { up: true, ..s.commands },
            ..s
        },
        KbgpNavCommand::NavigateDown => KbgpPrepareNavigation {
            commands: CommandBits { down: true, ..s.commands },
            ..s
        },
        KbgpNavCommand::NavigateLeft => KbgpPrepareNavigation {
            commands: CommandBits { left: true, ..s.commands },
            ..s
        },
        KbgpNavCommand::NavigateRight => KbgpPrepareNavigation {
            commands: CommandBits { right: true, ..s.commands },
            ..s
        },
        KbgpNavCommand::Click => KbgpPrepareNavigation {
            commands: CommandBits { click: true, ..s.commands },
            ..s
        },
        KbgpNavCommand::User(a) => KbgpPrepareNavigation {
            commands: CommandBits { user: true, ..s.commands },
            user_action: Some(a),
            ..s
        },
    }
}

/// Fold one pressed key into the collected set through the keyboard
/// bindings.
pub open spec fn apply_one_key<A>(
    s: KbgpPrepareNavigation<A>,
    key: u32,
    binding: Seq<(u32, KbgpNavCommand<A>)>,
) -> KbgpPrepareNavigation<A> {
    match pair_find(binding, key) {
        Some(cmd) => apply_action_spec(s, cmd),
        None => s,
    }
}

/// Fold the pressed keys from index `i` on into the collected set.
pub open spec fn apply_keys_from<A>(
    s: KbgpPrepareNavigation<A>,
    keys: Seq<u32>,
    i: int,
    binding: Seq<(u32, KbgpNavCommand<A>)>,
) -> KbgpPrepareNavigation<A>
    decreases keys.len() - i,
{
    if i < 0 || i >= keys.len() {
        s
    } else {
        apply_keys_from(apply_one_key(s, keys[i], binding), keys, i + 1, binding)
    }
}

/// Whether one of the keys the toolkit itself treats as activation (Enter,
/// numpad Enter, space) is pressed.
pub open spec fn has_default_activation_key(keys: Seq<u32>) -> bool {
    keys.contains(KEY_ENTER) || keys.contains(KEY_NUMPAD_ENTER) || keys.contains(KEY_SPACE)
}

/// Fold one thresholded axis level into the collected set: below minus half
/// of the range it asserts `negative`, above half it asserts `positive`.
pub open spec fn apply_axis_spec<A>(
    s: KbgpPrepareNavigation<A>,
    level: Option<i32>,
    negative: KbgpNavCommand<A>,
    positive: KbgpNavCommand<A>,
) -> KbgpPrepareNavigation<A> {
    match level {
        Some(v) => if v < -500 {
            apply_action_spec(s, negative)
        } else if v > 500 {
            apply_action_spec(s, positive)
        } else {
            s
        },
        None => s,
    }
}

/// Fold one pressed gamepad button into the collected set through the
/// gamepad bindings.
pub open spec fn apply_one_button<A>(
    s: KbgpPrepareNavigation<A>,
    button: u16,
    binding: Seq<(u16, KbgpNavCommand<A>)>,
) -> KbgpPrepareNavigation<A> {
    match pair_find(binding, button) {
        Some(cmd) => apply_action_spec(s, cmd),
        None => s,
    }
}

/// Fold the pressed gamepad buttons from index `i` on into the collected
/// set.
pub open spec fn apply_buttons_from<A>(
    s: KbgpPrepareNavigation<A>,
    buttons: Seq<u16>,
    i: int,
    binding: Seq<(u16, KbgpNavCommand<A>)>,
) -> KbgpPrepareNavigation<A>
    decreases buttons.len() - i,
{
    if i < 0 || i >= buttons.len() {
        s
    } else {
        apply_buttons_from(apply_one_button(s, buttons[i], binding), buttons, i + 1, binding)
    }
}

impl<A: Copy> KbgpPrepareNavigation<A> {
    /// A fresh collector with the default repeat timing and nothing
    /// asserted.
    pub fn new() -> (r: Self)
        ensures
            r.micros_after_first_input == crate::timing::DEFAULT_MICROS_AFTER_FIRST_INPUT,
            r.micros_between_inputs == crate::timing::DEFAULT_MICROS_BETWEEN_INPUTS,
            r.commands == CommandBits::empty(),
            r.user_action is None,
    {
        KbgpPrepareNavigation {
            micros_after_first_input: crate::timing::DEFAULT_MICROS_AFTER_FIRST_INPUT,
            micros_between_inputs: crate::timing::DEFAULT_MICROS_BETWEEN_INPUTS,
            commands: CommandBits::new(),
            user_action: None,
        }
    }

    /// Assert one command for this frame.
    pub fn apply_action(&mut self, command: &KbgpNavCommand<A>)
        ensures
            *final(self) == apply_action_spec(*old(self), *command),
    {
        match command {
            KbgpNavCommand::NavigateUp => {
                self.commands.up = true;
            },
            KbgpNavCommand::NavigateDown => {
                self.commands.down = true;
            },
            KbgpNavCommand::NavigateLeft => {
                self.commands.left = true;
            },
            KbgpNavCommand::NavigateRight => {
                self.commands.right = true;
            },
            KbgpNavCommand::Click => {
                self.commands.click = true;
            },
            KbgpNavCommand::User(action) => {
                self.user_action = Some(*action);
                self.commands.user = true;
            },
        }
    }

    /// Collect the keyboard's pressed keys through the keyboard bindings.
    ///
    /// With `mimic_default_activation`, a pressed Enter, numpad Enter or
    /// space also asserts Click, matching the toolkit's own built-in
    /// activation; pass `false` only when the toolkit's handling of those
    /// keys has been intercepted.
    pub fn navigate_keyboard_by_binding(
        &mut self,
        pressed: &Vec<u32>,
        binding: &KbgpNavBindings<A>,
        mimic_default_activation: bool,
    )
        ensures
            *final(self) == ({
                let applied = apply_keys_from(*old(self), pressed@, 0, binding.keyboard_seq());
                if mimic_default_activation && has_default_activation_key(pressed@) {
                    KbgpPrepareNavigation {
                        commands: CommandBits { click: true, ..applied.commands },
                        ..applied
                    }
                } else {
                    applied
                }
            }),
    {
        let n = pressed.len();
        let mut i: usize = 0;
        while i < n
            invariant
                n == pressed@.len(),
                i <= n,
                apply_keys_from(*old(self), pressed@, 0, binding.keyboard_seq())
                    == apply_keys_from(*self, pressed@, i as int, binding.keyboard_seq()),
            decreases n - i,
        {
            let key = pressed[i];
            match binding.key_command(key) {
                Some(cmd) => {
                    self.apply_action(&cmd);
                },
                None => {},
            }
            i = i + 1;
        }
        if mimic_default_activation {
            if contains_key(pressed, KEY_ENTER) || contains_key(pressed, KEY_NUMPAD_ENTER)
                || contains_key(pressed, KEY_SPACE) {
                self.commands.click = true;
            }
        }
    }

    /// Collect one gamepad's state: the left stick's thresholded levels (in
    /// thousandths of the full range) drive the four directions, and the
    /// pressed buttons go through the gamepad bindings.
    pub fn navigate_gamepad_by_binding(
        &mut self,
        left_stick_x: Option<i32>,
        left_stick_y: Option<i32>,
        pressed_buttons: &Vec<u16>,
        binding: &KbgpNavBindings<A>,
    )
        ensures
            *final(self) == apply_buttons_from(
                apply_axis_spec(
                    apply_axis_spec(
                        *old(self),
                        left_stick_x,
                        KbgpNavCommand::NavigateLeft,
                        KbgpNavCommand::NavigateRight,
                    ),
                    left_stick_y,
                    KbgpNavCommand::NavigateDown,
                    KbgpNavCommand::NavigateUp,
                ),
                pressed_buttons@,
                0,
                binding.gamepad_seq(),
            ),
    {
        if let Some(v) = left_stick_x {
            if v < -500 {
                self.apply_action(&KbgpNavCommand::NavigateLeft);
            } else if v > 500 {
                self.apply_action(&KbgpNavCommand::NavigateRight);
            }
        }
        if let Some(v) = left_stick_y {
            if v < -500 {
                self.apply_action(&KbgpNavCommand::NavigateDown);
            } else if v > 500 {
                self.apply_action(&KbgpNavCommand::NavigateUp);
            }
        }
        let ghost mid = *self;
        let n = pressed_buttons.len();
        let mut i: usize = 0;
        while i < n
            invariant
                n == pressed_buttons@.len(),
                i <= n,
                apply_buttons_from(mid, pressed_buttons@, 0, binding.gamepad_seq())
                    == apply_buttons_from(*self, pressed_buttons@, i as int, binding.gamepad_seq()),
            decreases n - i,
        {
            let button = pressed_buttons[i];
            match binding.button_command(button) {
                Some(cmd) => {
                    self.apply_action(&cmd);
                },
                None => {},
            }
            i = i + 1;
        }
    }
}

/// Whether the key is among the pressed ones.
fn contains_key(keys: &Vec<u32>, key: u32) -> (b: bool)
    ensures
        b == keys@.contains(key),
{
    let n = keys.len();
    let mut i: usize = 0;
    while i < n
        invariant
            n == keys@.len(),
            i <= n,
            forall|j: int| 0 <= j < i ==> keys@[j] != key,
        decreases n - i,
    {
        if keys[i] == key {
            proof {
                assert(keys@[i as int] == key);
            }
            return true;
        }
        i = i + 1;
    }
    false
}

/// Input mapping for navigation: which keyboard keys and gamepad buttons
/// assert which command. Axis-based directional input is not configurable;
/// it is hard-wired in
/// [`navigate_gamepad_by_binding`](KbgpPrepareNavigation::navigate_gamepad_by_binding).
pub struct KbgpNavBindings<A> {
    keyboard: Vec<(u32, KbgpNavCommand<A>)>,
    gamepad_buttons: Vec<(u16, KbgpNavCommand<A>)>,
}

/// The exact contents of the default binding table: arrow keys and d-pad
/// for the four directions, the south face button for Click, and nothing
/// else. Enter and space are deliberately left to the toolkit's own
/// activation handling.
pub open spec fn is_default_bindings<A: Copy>(b: KbgpNavBindings<A>) -> bool {
    &&& b.wf()
    &&& b.key_binding(KEY_ARROW_UP) == Some(KbgpNavCommand::<A>::NavigateUp)
    &&& b.key_binding(KEY_ARROW_DOWN) == Some(KbgpNavCommand::<A>::NavigateDown)
    &&& b.key_binding(KEY_ARROW_LEFT) == Some(KbgpNavCommand::<A>::NavigateLeft)
    &&& b.key_binding(KEY_ARROW_RIGHT) == Some(KbgpNavCommand::<A>::NavigateRight)
    &&& forall|k: u32|
        !(k == KEY_ARROW_UP || k == KEY_ARROW_DOWN || k == KEY_ARROW_LEFT || k == KEY_ARROW_RIGHT)
            ==> #[trigger] b.key_binding(k) is None
    &&& is_default_gamepad_bindings(b)
}

/// The gamepad side of the default binding table.
pub open spec fn is_default_gamepad_bindings<A: Copy>(b: KbgpNavBindings<A>) -> bool {
    &&& b.button_binding(BUTTON_DPAD_UP) == Some(KbgpNavCommand::<A>::NavigateUp)
    &&& b.button_binding(BUTTON_DPAD_DOWN) == Some(KbgpNavCommand::<A>::NavigateDown)
    &&& b.button_binding(BUTTON_DPAD_LEFT) == Some(KbgpNavCommand::<A>::NavigateLeft)
    &&& b.button_binding(BUTTON_DPAD_RIGHT) == Some(KbgpNavCommand::<A>::NavigateRight)
    &&& b.button_binding(BUTTON_SOUTH) == Some(KbgpNavCommand::<A>::Click)
    &&& forall|bt: u16|
        !(bt == BUTTON_DPAD_UP || bt == BUTTON_DPAD_DOWN || bt == BUTTON_DPAD_LEFT || bt
            == BUTTON_DPAD_RIGHT || bt == BUTTON_SOUTH) ==> #[trigger] b.button_binding(bt) is None
}

impl<A: Copy> KbgpNavBindings<A> {
    /// The keyboard bindings as a key-to-command sequence.
    pub closed spec fn keyboard_seq(self) -> Seq<(u32, KbgpNavCommand<A>)> {
        self.keyboard@
    }

    /// The gamepad button bindings as a button-to-command sequence.
    pub closed spec fn gamepad_seq(self) -> Seq<(u16, KbgpNavCommand<A>)> {
        self.gamepad_buttons@
    }

    /// Each physical input is bound to at most one command.
    pub open spec fn wf(self) -> bool {
        unique_keys(self.keyboard_seq()) && unique_keys(self.gamepad_seq())
    }

    /// The command a keyboard key is bound to, if any.
    pub open spec fn key_binding(self, key: u32) -> Option<KbgpNavCommand<A>> {
        pair_find(self.keyboard_seq(), key)
    }

    /// The command a gamepad button is bound to, if any.
    pub open spec fn button_binding(self, button: u16) -> Option<KbgpNavCommand<A>> {
        pair_find(self.gamepad_seq(), button)
    }

    /// Create empty bindings with no mapping. Gamepad axes are still
    /// mapped, because their handling is hard-wired.
    pub fn empty() -> (r: Self)
        ensures
            r.wf(),
            r.keyboard_seq() =~= Seq::<(u32, KbgpNavCommand<A>)>::empty(),
            r.gamepad_seq() =~= Seq::<(u16, KbgpNavCommand<A>)>::empty(),
            forall|k: u32| #[trigger] r.key_binding(k) is None,
            forall|bt: u16| #[trigger] r.button_binding(bt) is None,
    {
        KbgpNavBindings { keyboard: Vec::new(), gamepad_buttons: Vec::new() }
    }

    /// Create bindings with the default mappings for gamepad only:
    /// navigation on the d-pad and left stick, activation on the south
    /// button. Use this when the toolkit's own arrow-key navigation is kept,
    /// so the arrow keys are not processed twice.
    pub fn default_gamepad_only() -> (r: Self)
        ensures
            r.wf(),
            is_default_gamepad_bindings(r),
            forall|k: u32| #[trigger] r.key_binding(k) is None,
    {
        Self::empty().with_gamepad_dpad_navigation_and_south_button_activation()
    }

    /// Bind the arrow keys for navigation.
    pub fn bind_arrow_keys_navigation(&mut self)
        requires
            old(self).wf(),
        ensures
            final(self).wf(),
            final(self).key_binding(KEY_ARROW_UP) == Some(KbgpNavCommand::<A>::NavigateUp),
            final(self).key_binding(KEY_ARROW_DOWN) == Some(KbgpNavCommand::<A>::NavigateDown),
            final(self).key_binding(KEY_ARROW_LEFT) == Some(KbgpNavCommand::<A>::NavigateLeft),
            final(self).key_binding(KEY_ARROW_RIGHT) == Some(KbgpNavCommand::<A>::NavigateRight),
            forall|k: u32|
                !(k == KEY_ARROW_UP || k == KEY_ARROW_DOWN || k == KEY_ARROW_LEFT || k
                    == KEY_ARROW_RIGHT) ==> #[trigger] final(self).key_binding(k) == old(self).key_binding(k),
            final(self).gamepad_seq() == old(self).gamepad_seq(),
    {
        self.bind_key(KEY_ARROW_UP, KbgpNavCommand::NavigateUp);
        self.bind_key(KEY_ARROW_DOWN, KbgpNavCommand::NavigateDown);
        self.bind_key(KEY_ARROW_LEFT, KbgpNavCommand::NavigateLeft);
        self.bind_key(KEY_ARROW_RIGHT, KbgpNavCommand::NavigateRight);
    }

    /// Bind the arrow keys for navigation.
    pub fn with_arrow_keys_navigation(self) -> (r: Self)
        requires
            self.wf(),
        ensures
            r.wf(),
            r.key_binding(KEY_ARROW_UP) == Some(KbgpNavCommand::<A>::NavigateUp),
            r.key_binding(KEY_ARROW_DOWN) == Some(KbgpNavCommand::<A>::NavigateDown),
            r.key_binding(KEY_ARROW_LEFT) == Some(KbgpNavCommand::<A>::NavigateLeft),
            r.key_binding(KEY_ARROW_RIGHT) == Some(KbgpNavCommand::<A>::NavigateRight),
            forall|k: u32|
                !(k == KEY_ARROW_UP || k == KEY_ARROW_DOWN || k == KEY_ARROW_LEFT || k
                    == KEY_ARROW_RIGHT) ==> #[trigger] r.key_binding(k) == self.key_binding(k),
            r.gamepad_seq() == self.gamepad_seq(),
    {
        let mut this = self;
        this.bind_arrow_keys_navigation();
        this
    }

    /// Bind the gamepad's d-pad for navigation and the south button for
    /// activation.
    pub fn bind_gamepad_dpad_navigation_and_south_button_activation(&mut self)
        requires
            old(self).wf(),
        ensures
            final(self).wf(),
            final(self).button_binding(BUTTON_DPAD_UP) == Some(KbgpNavCommand::<A>::NavigateUp),
            final(self).button_binding(BUTTON_DPAD_DOWN) == Some(KbgpNavCommand::<A>::NavigateDown),
            final(self).button_binding(BUTTON_DPAD_LEFT) == Some(KbgpNavCommand::<A>::NavigateLeft),
            final(self).button_binding(BUTTON_DPAD_RIGHT) == Some(
                KbgpNavCommand::<A>::NavigateRight,
            ),
            final(self).button_binding(BUTTON_SOUTH) == Some(KbgpNavCommand::<A>::Click),
            forall|bt: u16|
                !(bt == BUTTON_DPAD_UP || bt == BUTTON_DPAD_DOWN || bt == BUTTON_DPAD_LEFT || bt
                    == BUTTON_DPAD_RIGHT || bt == BUTTON_SOUTH) ==> #[trigger] final(self).button_binding(bt) == old(self).button_binding(bt),
            final(self).keyboard_seq() == old(self).keyboard_seq(),
    {
        self.bind_gamepad_button(BUTTON_DPAD_UP, KbgpNavCommand::NavigateUp);
        self.bind_gamepad_button(BUTTON_DPAD_DOWN, KbgpNavCommand::NavigateDown);
        self.bind_gamepad_button(BUTTON_DPAD_LEFT, KbgpNavCommand::NavigateLeft);
        self.bind_gamepad_button(BUTTON_DPAD_RIGHT, KbgpNavCommand::NavigateRight);
        self.bind_gamepad_button(BUTTON_SOUTH, KbgpNavCommand::Click);
    }

    /// Bind the gamepad's d-pad for navigation and the south button for
    /// activation.
    pub fn with_gamepad_dpad_navigation_and_south_button_activation(self) -> (r: Self)
        requires
            self.wf(),
        ensures
            r.wf(),
            is_default_gamepad_bindings(r) <== (forall|bt: u16| #[trigger]
                self.button_binding(bt) is None),
            r.button_binding(BUTTON_DPAD_UP) == Some(KbgpNavCommand::<A>::NavigateUp),
            r.button_binding(BUTTON_DPAD_DOWN) == Some(KbgpNavCommand::<A>::NavigateDown),
            r.button_binding(BUTTON_DPAD_LEFT) == Some(KbgpNavCommand::<A>::NavigateLeft),
            r.button_binding(BUTTON_DPAD_RIGHT) == Some(KbgpNavCommand::<A>::NavigateRight),
            r.button_binding(BUTTON_SOUTH) == Some(KbgpNavCommand::<A>::Click),
            forall|bt: u16|
                !(bt == BUTTON_DPAD_UP || bt == BUTTON_DPAD_DOWN || bt == BUTTON_DPAD_LEFT || bt
                    == BUTTON_DPAD_RIGHT || bt == BUTTON_SOUTH) ==> #[trigger] r.button_binding(bt)
                    == self.button_binding(bt),
            r.keyboard_seq() == self.keyboard_seq(),
    {
        let mut this = self;
        this.bind_gamepad_dpad_navigation_and_south_button_activation();
        this
    }

    /// Bind W, A, S and D for navigation.
    pub fn bind_wasd_navigation(&mut self)
        requires
            old(self).wf(),
        ensures
            final(self).wf(),
            final(self).key_binding(KEY_W) == Some(KbgpNavCommand::<A>::NavigateUp),
            final(self).key_binding(KEY_S) == Some(KbgpNavCommand::<A>::NavigateDown),
            final(self).key_binding(KEY_A) == Some(KbgpNavCommand::<A>::NavigateLeft),
            final(self).key_binding(KEY_D) == Some(KbgpNavCommand::<A>::NavigateRight),
            forall|k: u32|
                !(k == KEY_W || k == KEY_S || k == KEY_A || k == KEY_D) ==> #[trigger] final(self).key_binding(k) == old(self).key_binding(k),
            final(self).gamepad_seq() == old(self).gamepad_seq(),
    {
        self.bind_key(KEY_W, KbgpNavCommand::NavigateUp);
        self.bind_key(KEY_S, KbgpNavCommand::NavigateDown);
        self.bind_key(KEY_A, KbgpNavCommand::NavigateLeft);
        self.bind_key(KEY_D, KbgpNavCommand::NavigateRight);
    }

    /// Bind W, A, S and D for navigation.
    pub fn with_wasd_navigation(self) -> (r: Self)
        requires
            self.wf(),
        ensures
            r.wf(),
            r.key_binding(KEY_W) == Some(KbgpNavCommand::<A>::NavigateUp),
            r.key_binding(KEY_S) == Some(KbgpNavCommand::<A>::NavigateDown),
            r.key_binding(KEY_A) == Some(KbgpNavCommand::<A>::NavigateLeft),
            r.key_binding(KEY_D) == Some(KbgpNavCommand::<A>::NavigateRight),
            forall|k: u32|
                !(k == KEY_W || k == KEY_S || k == KEY_A || k == KEY_D) ==> #[trigger] r.key_binding(
                    k,
                ) == self.key_binding(k),
            r.gamepad_seq() == self.gamepad_seq(),
    {
        let mut this = self;
        this.bind_wasd_navigation();
        this
    }

    /// Bind a command to a keyboard key, replacing what the key was bound
    /// to.
    pub fn bind_key(&mut self, key: u32, command: KbgpNavCommand<A>)
        requires
            old(self).wf(),
        ensures
            final(self).wf(),
            final(self).key_binding(key) == Some(command),
            forall|k: u32| k != key ==> #[trigger] final(self).key_binding(k) == old(
                self,
            ).key_binding(k),
            final(self).gamepad_seq() == old(self).gamepad_seq(),
    {
        let n = self.keyboard.len();
        let mut i: usize = 0;
        while i < n
            invariant
                n == self.keyboard@.len(),
                i <= n,
                forall|j: int| 0 <= j < i ==> self.keyboard@[j].0 != key,
                *self == *old(self),
                old(self).wf(),
            decreases n - i,
        {
            if self.keyboard[i].0 == key {
                let pair = (key, command);
                proof {
                    lemma_pair_find_update(self.keyboard@, i as int, pair, key);
                    assert forall|k: u32| k != key implies pair_find(
                        self.keyboard@.update(i as int, pair),
                        k,
                    ) == pair_find(self.keyboard@, k) by {
                        lemma_pair_find_update(self.keyboard@, i as int, pair, k);
                    }
                }
                self.keyboard.set(i, pair);
                return ;
            }
            i = i + 1;
        }
        let pair = (key, command);
        proof {
            lemma_pair_find_membership(self.keyboard@, key);
            assert forall|k: u32| k != key implies pair_find(self.keyboard@.push(pair), k)
                == pair_find(self.keyboard@, k) by {
                lemma_pair_find_push(self.keyboard@, pair, k);
            }
            lemma_pair_find_push(self.keyboard@, pair, key);
        }
        self.keyboard.push(pair);
    }

    /// Bind a command to a keyboard key, replacing what the key was bound
    /// to.
    pub fn with_key(self, key: u32, command: KbgpNavCommand<A>) -> (r: Self)
        requires
            self.wf(),
        ensures
            r.wf(),
            r.key_binding(key) == Some(command),
            forall|k: u32| k != key ==> #[trigger] r.key_binding(k) == self.key_binding(k),
            r.gamepad_seq() == self.gamepad_seq(),
    {
        let mut this = self;
        this.bind_key(key, command);
        this
    }

    /// Bind a command to a gamepad button, replacing what the button was
    /// bound to.
    pub fn bind_gamepad_button(&mut self, gamepad_button: u16, command: KbgpNavCommand<A>)
        requires
            old(self).wf(),
        ensures
            final(self).wf(),
            final(self).button_binding(gamepad_button) == Some(command),
            forall|bt: u16| bt != gamepad_button ==> #[trigger] final(self).button_binding(bt)
                == old(self).button_binding(bt),
            final(self).keyboard_seq() == old(self).keyboard_seq(),
    {
        let n = self.gamepad_buttons.len();
        let mut i: usize = 0;
        while i < n
            invariant
                n == self.gamepad_buttons@.len(),
                i <= n,
                forall|j: int| 0 <= j < i ==> self.gamepad_buttons@[j].0 != gamepad_button,
                *self == *old(self),
                old(self).wf(),
            decreases n - i,
        {
            if self.gamepad_buttons[i].0 == gamepad_button {
                let pair = (gamepad_button, command);
                proof {
                    lemma_pair_find_update(self.gamepad_buttons@, i as int, pair, gamepad_button);
                    assert forall|bt: u16| bt != gamepad_button implies pair_find(
                        self.gamepad_buttons@.update(i as int, pair),
                        bt,
                    ) == pair_find(self.gamepad_buttons@, bt) by {
                        lemma_pair_find_update(self.gamepad_buttons@, i as int, pair, bt);
                    }
                }
                self.gamepad_buttons.set(i, pair);
                return ;
            }
            i = i + 1;
        }
        let pair = (gamepad_button, command);
        proof {
            lemma_pair_find_membership(self.gamepad_buttons@, gamepad_button);
            assert forall|bt: u16| bt != gamepad_button implies pair_find(
                self.gamepad_buttons@.push(pair),
                bt,
            ) == pair_find(self.gamepad_buttons@, bt) by {
                lemma_pair_find_push(self.gamepad_buttons@, pair, bt);
            }
            lemma_pair_find_push(self.gamepad_buttons@, pair, gamepad_button);
        }
        self.gamepad_buttons.push(pair);
    }

    /// Bind a command to a gamepad button, replacing what the button was
    /// bound to.
    pub fn with_gamepad_button(self, gamepad_button: u16, command: KbgpNavCommand<A>) -> (r: Self)
        requires
            self.wf(),
        ensures
            r.wf(),
            r.button_binding(gamepad_button) == Some(command),
            forall|bt: u16| bt != gamepad_button ==> #[trigger] r.button_binding(bt)
                == self.button_binding(bt),
            r.keyboard_seq() == self.keyboard_seq(),
    {
        let mut this = self;
        this.bind_gamepad_button(gamepad_button, command);
        this
    }

    /// The command a keyboard key is bound to.
    pub fn key_command(&self, key: u32) -> (r: Option<KbgpNavCommand<A>>)
        ensures
            r == self.key_binding(key),
    {
        let mut i: usize = self.keyboard.len();
        proof {
            assert(self.keyboard@.take(i as int) =~= self.keyboard@);
        }
        while i > 0
            invariant
                i <= self.keyboard@.len(),
                pair_find(self.keyboard@, key) == pair_find(self.keyboard@.take(i as int), key),
            decreases i,
        {
            i = i - 1;
            let pair = self.keyboard[i];
            proof {
                assert(self.keyboard@.take(i as int + 1).last() == self.keyboard@[i as int]);
                assert(self.keyboard@.take(i as int + 1).drop_last() =~= self.keyboard@.take(
                    i as int,
                ));
            }
            if pair.0 == key {
                return Some(pair.1);
            }
        }
        None
    }

    /// The command a gamepad button is bound to.
    pub fn button_command(&self, button: u16) -> (r: Option<KbgpNavCommand<A>>)
        ensures
            r == self.button_binding(button),
    {
        let mut i: usize = self.gamepad_buttons.len();
        proof {
            assert(self.gamepad_buttons@.take(i as int) =~= self.gamepad_buttons@);
        }
        while i > 0
            invariant
                i <= self.gamepad_buttons@.len(),
                pair_find(self.gamepad_buttons@, button) == pair_find(
                    self.gamepad_buttons@.take(i as int),
                    button,
                ),
            decreases i,
        {
            i = i - 1;
            let pair = self.gamepad_buttons[i];
            proof {
                assert(self.gamepad_buttons@.take(i as int + 1).last() == self.gamepad_buttons@[
                    i as int
                ]);
                assert(self.gamepad_buttons@.take(i as int + 1).drop_last()
                    =~= self.gamepad_buttons@.take(i as int));
            }
            if pair.0 == button {
                return Some(pair.1);
            }
        }
        None
    }
}

impl<A: Copy> Default for KbgpNavBindings<A> {
    /// Create bindings with the default mappings: navigation on the arrow
    /// keys, the d-pad and the left stick; activation on Enter and space
    /// (both the toolkit's own) and on the gamepad's south button.
    fn default() -> (r: Self)
        ensures
            is_default_bindings(r),
    {
        let e = Self::empty();
        let a = e.with_arrow_keys_navigation();
        proof {
            assert forall|bt: u16| #[trigger] a.button_binding(bt) is None by {
                assert(e.button_binding(bt) is None);
            }
        }
        let r = a.with_gamepad_dpad_navigation_and_south_button_activation();
        proof {
            assert forall|k: u32|
                !(k == KEY_ARROW_UP || k == KEY_ARROW_DOWN || k == KEY_ARROW_LEFT || k
                    == KEY_ARROW_RIGHT) implies #[trigger] r.key_binding(k) is None by {
                assert(e.key_binding(k) is None);
                assert(a.key_binding(k) == e.key_binding(k));
                assert(r.key_binding(k) == a.key_binding(k));
            }
        }
        r
    }
}

/// General configuration for the engine, owned by the host.
pub struct KbgpSettings<A> {
    /// Whether the toolkit's own tab-style navigation should be suppressed.
    pub disable_default_navigation: bool,
    /// Whether the toolkit's own Enter and space activation should be
    /// suppressed. The keys can still be bound through `bindings`.
    pub disable_default_activation: bool,
    /// Whether to force that some node always keeps the focus.
    pub prevent_loss_of_focus: bool,
    /// Whether to transfer focus to a node when the mouse moves into it.
    pub focus_on_mouse_movement: bool,
    /// Whether keyboard input is accepted for navigation and for chords.
    pub allow_keyboard: bool,
    /// Whether mouse buttons are accepted for chords.
    pub allow_mouse_buttons: bool,
    /// Whether vertical mouse wheel input is accepted for chords.
    pub allow_mouse_wheel: bool,
    /// Whether sideways mouse wheel input is accepted for chords.
    pub allow_mouse_wheel_sideways: bool,
    /// Whether gamepad input is accepted for navigation and for chords.
    pub allow_gamepads: bool,
    /// Input mapping for navigation.
    pub bindings: KbgpNavBindings<A>,
}

impl<A: Copy> Default for KbgpSettings<A> {
    /// The default settings enable every input class except the mouse
    /// wheel, keep the toolkit's own navigation and activation, and use the
    /// default bindings.
    fn default() -> (r: Self)
        ensures
            !r.disable_default_navigation,
            !r.disable_default_activation,
            !r.prevent_loss_of_focus,
            !r.focus_on_mouse_movement,
            r.allow_keyboard,
            r.allow_mouse_buttons,
            !r.allow_mouse_wheel,
            !r.allow_mouse_wheel_sideways,
            r.allow_gamepads,
            is_default_bindings(r.bindings),
    {
        KbgpSettings {
            disable_default_navigation: false,
            disable_default_activation: false,
            prevent_loss_of_focus: false,
            focus_on_mouse_movement: false,
            allow_keyboard: true,
            allow_mouse_buttons: true,
            allow_mouse_wheel: false,
            allow_mouse_wheel_sideways: false,
            allow_gamepads: true,
            bindings: Default::default(),
        }
    }
}

} // verus!
