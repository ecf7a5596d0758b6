//! The engine context: one instance per UI root.
//!
//! The host calls [`Kbgp::prepare`] once per frame, before the UI is built,
//! handing it the clock, the toolkit's current focus and the device state
//! collected into plain values. The UI-building pass then calls the query
//! methods while laying out each node. The context is either navigating
//! normally or, while a node records a new binding, capturing pending
//! input.

use vstd::prelude::*;

use crate::bits::CommandBits;
use crate::capture::{CapturePolicy, InputFilter, KbgpPendingInputState, KbgpPreparePendingInput,
    any_overlap, capture_from, chord_wf, prepare_relation};
use crate::input::{KbgpInput, KbgpInputSource};
use crate::navigation::{KbgpNavActivation, KbgpPrepareNavigation};
use crate::registry::{NodeRegistry, Rect, node_at_from, sweep_seq, swept};
use crate::release::{PendingReleaseState, release_step};
use crate::resolver::{NavDirection, resolve, resolve_spec};
use crate::timing::{effective_commands, next_allowed_after, throttle};

verus! {

/// The label reserved for "focus here when this UI first appears". It is
/// applied automatically on a frame where no node at all is registered and
/// no other label request is pending.
pub const KBGP_INITIAL_FOCUS_LABEL: u64 = 0xffff_ffff_ffff_ffff;

/// The per-context state while navigating normally.
#[derive(Clone, Copy, Debug)]
pub struct KbgpNavigationState<A> {
    /// The previous frame's raw command set, for edge detection.
    pub prev_input: CommandBits,
    /// The press/hold/release activation machine.
    pub pending_release_state: PendingReleaseState<A>,
    /// The repeat deadline of the timing controller, in microseconds.
    pub next_navigation: u64,
    /// The user action that became effective this frame, if any.
    pub user_action: Option<A>,
    /// The label a node may claim focus with during this frame's layout.
    pub focus_label: Option<u64>,
    /// The label requested for the next frame.
    pub next_frame_focus_label: Option<u64>,
    /// The node that claimed the focus label, to be focused next frame.
    pub focus_on: Option<u64>,
    /// The node that had focus most recently, for focus-loss recovery.
    pub last_focus: Option<u64>,
    /// The node the mouse pointer was last seen over.
    pub mouse_was_last_on: Option<u64>,
}

impl<A: Copy> KbgpNavigationState<A> {
    /// A freshly created navigation state.
    pub open spec fn is_fresh(self) -> bool {
        &&& self.prev_input == CommandBits::empty()
        &&& self.pending_release_state is Idle
        &&& self.next_navigation == 0
        &&& self.user_action is None
        &&& self.focus_label is None
        &&& self.next_frame_focus_label is None
        &&& self.focus_on is None
        &&& self.last_focus is None
        &&& self.mouse_was_last_on is None
    }

    /// Build a fresh navigation state.
    pub fn new() -> (r: Self)
        ensures
            r.is_fresh(),
    {
        KbgpNavigationState {
            prev_input: CommandBits::new(),
            pending_release_state: PendingReleaseState::Idle,
            next_navigation: 0,
            user_action: None,
            focus_label: None,
            next_frame_focus_label: None,
            focus_on: None,
            last_focus: None,
            mouse_was_last_on: None,
        }
    }
}

/// Which mode the context is in.
pub enum KbgpState<A> {
    /// Normal navigation.
    Navigation(KbgpNavigationState<A>),
    /// A node is recording a new binding.
    PendingInput(KbgpPendingInputState),
}

/// What the host must do after `prepare`: focus a node, and whether to hand
/// the toolkit a synthetic activation event for the focused node.
#[derive(Clone, Copy, PartialEq, Eq, Structural, Debug)]
pub struct KbgpPrepareOutput {
    /// Request the toolkit to focus this node.
    pub request_focus: Option<u64>,
    /// Inject a synthetic "activate the focused node" event, so a bound
    /// Click reuses the toolkit's native click handling.
    pub synthesize_click: bool,
}

/// Where a directional command set moves the focus: a vertical move is
/// resolved first (from the currently focused node), then a horizontal move
/// continues from the vertical target. Opposed directions cancel.
pub open spec fn move_target(
    reg: Seq<crate::registry::NodeEntry>,
    eff: CommandBits,
    focus: Option<u64>,
) -> Option<u64> {
    let vertical = if eff.up && !eff.down {
        resolve_spec(reg, NavDirection::Up, focus)
    } else if eff.down && !eff.up {
        resolve_spec(reg, NavDirection::Down, focus)
    } else {
        None
    };
    let base = if vertical is Some {
        vertical
    } else {
        focus
    };
    if eff.left && !eff.right {
        resolve_spec(reg, NavDirection::Left, base)
    } else if eff.right && !eff.left {
        resolve_spec(reg, NavDirection::Right, base)
    } else {
        vertical
    }
}

/// The user action the context reports this frame.
pub open spec fn current_user_action<A>(state: KbgpState<A>) -> Option<A> {
    match state {
        KbgpState::Navigation(ns) => ns.user_action,
        KbgpState::PendingInput(_) => None,
    }
}

/// The user action whose hold was released this frame, node-scoped or
/// global.
pub open spec fn released_user_action<A>(state: KbgpState<A>) -> Option<A> {
    match state {
        KbgpState::Navigation(ns) => match ns.pending_release_state {
            PendingReleaseState::NodeHoldReleased { user_action, .. } => user_action,
            PendingReleaseState::GlobalHoldReleased { user_action } => Some(user_action),
            _ => None,
        },
        KbgpState::PendingInput(_) => None,
    }
}

/// Whether a plain Click hold on node `id` was released this frame.
pub open spec fn click_released_on<A>(state: KbgpState<A>, id: u64) -> bool {
    match state {
        KbgpState::Navigation(ns) => match ns.pending_release_state {
            PendingReleaseState::NodeHoldReleased { id: rid, user_action } => rid == id
                && user_action is None,
            _ => false,
        },
        KbgpState::PendingInput(_) => false,
    }
}

/// The user action released on node `id` this frame, if any.
pub open spec fn node_released_user_action<A>(state: KbgpState<A>, id: u64) -> Option<A> {
    match state {
        KbgpState::Navigation(ns) => match ns.pending_release_state {
            PendingReleaseState::NodeHoldReleased { id: rid, user_action } => if rid == id {
                user_action
            } else {
                None
            },
            _ => None,
        },
        KbgpState::PendingInput(_) => None,
    }
}

/// Whether a capture session is complete after this frame's processing:
/// something was received, and — under a single-input policy — no received
/// input is still held, or — for a chord — no candidate is pressed at all.
pub open spec fn capture_finished(
    received: Seq<KbgpInput>,
    itf: Seq<KbgpInput>,
    limit_one: bool,
) -> bool {
    if limit_one {
        received.len() > 0 && !any_overlap(itf, received)
    } else {
        received.len() > 0 && itf.len() == 0
    }
}

/// How one pending-input query relates the context before and after, and
/// what it returns. In navigation mode a click on the node starts a capture
/// session and nothing is returned yet. During this node's session the
/// frame's candidates are folded into the chord; when the capture finishes
/// the chord is returned and the context goes back to navigation. A session
/// belonging to another node or run under another policy is left alone.
pub open spec fn pending_query_relation<A: Copy>(
    pre: Kbgp<A>,
    post: Kbgp<A>,
    id: u64,
    clicked: bool,
    policy: CapturePolicy,
    result: Option<Seq<KbgpInput>>,
) -> bool {
    &&& post.common == pre.common
    &&& match pre.state {
        KbgpState::Navigation(_) => {
            &&& result is None
            &&& if clicked {
                post.state matches KbgpState::PendingInput(q) && q.acceptor_id == id && q.policy
                    == policy && !q.baseline_taken && q.received_input@ == Seq::<
                    KbgpInput,
                >::empty() && q.input_this_frame@ == Seq::<KbgpInput>::empty()
            } else {
                post.state == pre.state
            }
        },
        KbgpState::PendingInput(ps) => {
            if ps.acceptor_id != id || ps.policy != policy {
                &&& result is None
                &&& post.state == pre.state
            } else {
                let rec = capture_from(
                    ps.received_input@,
                    ps.input_this_frame@,
                    0,
                    policy.filter,
                    policy.limit_one,
                );
                if capture_finished(rec, ps.input_this_frame@, policy.limit_one) {
                    &&& result == Some(rec)
                    &&& post.state matches KbgpState::Navigation(ns) && ns.is_fresh()
                } else {
                    &&& result is None
                    &&& post.state matches KbgpState::PendingInput(q) && q.acceptor_id
                        == ps.acceptor_id && q.policy == ps.policy && q.received_input@ == rec
                        && q.input_this_frame@ == ps.input_this_frame@ && q.baseline_taken
                        == ps.baseline_taken && q.ignored_input@ == ps.ignored_input@
                }
            }
        },
    }
}

/// The engine context.
pub struct Kbgp<A> {
    /// The node registry shared by both modes.
    pub common: NodeRegistry,
    /// The current mode and its state.
    pub state: KbgpState<A>,
}

impl<A: Copy> Kbgp<A> {
    /// A well-formed context: the registry keeps one entry per node, and a
    /// running capture session keeps its chord well-formed.
    pub open spec fn wf(self) -> bool {
        &&& self.common.wf()
        &&& match self.state {
            KbgpState::PendingInput(p) => p.wf(),
            KbgpState::Navigation(_) => true,
        }
    }

    /// Build a fresh context in navigation mode with an empty registry.
    pub fn new() -> (r: Self)
        ensures
            r.wf(),
            r.common@ =~= Seq::<crate::registry::NodeEntry>::empty(),
            r.state matches KbgpState::Navigation(ns) && ns.is_fresh(),
    {
        Kbgp { common: NodeRegistry::new(), state: KbgpState::Navigation(KbgpNavigationState::new()) }
    }

    /// Run one frame of the engine, before the UI is built.
    ///
    /// `now_micros` is the host clock; `current_focus` is the node the
    /// toolkit reports as focused; `nav_input` and `pending_input` carry the
    /// device state collected for this frame (only the one matching the
    /// current mode is consulted). Returns what the host must do: focus a
    /// node and/or synthesize an activation event.
    pub fn prepare(
        &mut self,
        now_micros: u64,
        current_focus: Option<u64>,
        nav_input: &KbgpPrepareNavigation<A>,
        pending_input: &KbgpPreparePendingInput,
    ) -> (out: KbgpPrepareOutput)
        requires
            old(self).wf(),
            now_micros + nav_input.micros_after_first_input <= u64::MAX,
            now_micros + nav_input.micros_between_inputs <= u64::MAX,
        ensures
            final(self).wf(),
            final(self).common@ == sweep_seq(old(self).common@),
            forall|k: u64| #[trigger]
                final(self).common.lookup(k) == swept(old(self).common.lookup(k)),
            final(self).common@.len() <= old(self).common@.len(),
            old(self).state matches KbgpState::Navigation(ns) ==> ({
                let cmds = nav_input.commands;
                let eff = effective_commands(ns.prev_input, cmds, now_micros, ns.next_navigation);
                &&& out.synthesize_click == eff.click
                &&& out.request_focus == (if ns.focus_on is Some {
                    ns.focus_on
                } else {
                    move_target(final(self).common@, eff, current_focus)
                })
                &&& final(self).state matches KbgpState::Navigation(ns2)
                &&& ns2.prev_input == cmds
                &&& ns2.next_navigation == next_allowed_after(
                    ns.prev_input,
                    cmds,
                    now_micros,
                    ns.next_navigation,
                    nav_input.micros_after_first_input,
                    nav_input.micros_between_inputs,
                )
                &&& ns2.user_action == (if eff.user {
                    nav_input.user_action
                } else {
                    None::<A>
                })
                &&& ns2.pending_release_state == release_step(
                    ns.pending_release_state,
                    cmds,
                    current_focus,
                    ns.user_action,
                )
                &&& ns2.focus_on is None
                &&& ns2.next_frame_focus_label is None
                &&& ns2.focus_label == (if ns.next_frame_focus_label is Some {
                    ns.next_frame_focus_label
                } else if final(self).common@.len() == 0 {
                    Some(KBGP_INITIAL_FOCUS_LABEL)
                } else {
                    None::<u64>
                })
                &&& ns2.last_focus == ns.last_focus
                &&& ns2.mouse_was_last_on == ns.mouse_was_last_on
            }),
            old(self).state matches KbgpState::PendingInput(ps) ==> ({
                &&& !out.synthesize_click
                &&& out.request_focus is None
                &&& if final(self).common@.len() == 0 {
                    final(self).state matches KbgpState::Navigation(ns2) && ns2.is_fresh()
                } else {
                    final(self).state matches KbgpState::PendingInput(ps2) && prepare_relation(
                        ps,
                        ps2,
                        pending_input.current_input@,
                    )
                }
            }),
    {
        self.common.begin_frame();
        let mut out = KbgpPrepareOutput { request_focus: None, synthesize_click: false };
        match &mut self.state {
            KbgpState::Navigation(ns) => {
                let prev_user_action = ns.user_action;
                ns.user_action = None;
                let cmds = nav_input.commands;
                let mut move_focus_to: Option<u64> = None;
                if cmds.is_any() {
                    let (eff, next_deadline) = throttle(
                        ns.prev_input,
                        cmds,
                        now_micros,
                        ns.next_navigation,
                        nav_input.micros_after_first_input,
                        nav_input.micros_between_inputs,
                    );
                    ns.next_navigation = next_deadline;
                    out.synthesize_click = eff.click;
                    if eff.user {
                        ns.user_action = nav_input.user_action;
                    }
                    if eff.up && !eff.down {
                        move_focus_to = resolve(&self.common, NavDirection::Up, current_focus);
                    } else if eff.down && !eff.up {
                        move_focus_to = resolve(&self.common, NavDirection::Down, current_focus);
                    }
                    let base = if move_focus_to.is_some() {
                        move_focus_to
                    } else {
                        current_focus
                    };
                    if eff.left && !eff.right {
                        move_focus_to = resolve(&self.common, NavDirection::Left, base);
                    } else if eff.right && !eff.left {
                        move_focus_to = resolve(&self.common, NavDirection::Right, base);
                    }
                }
                ns.prev_input = cmds;
                ns.pending_release_state = ns.pending_release_state.step(
                    cmds,
                    current_focus,
                    prev_user_action,
                );
                let focus_from_label = ns.focus_on;
                ns.focus_on = None;
                ns.focus_label = ns.next_frame_focus_label;
                ns.next_frame_focus_label = None;
                if self.common.is_empty() && ns.focus_label.is_none() {
                    ns.focus_label = Some(KBGP_INITIAL_FOCUS_LABEL);
                }
                out.request_focus = if focus_from_label.is_some() {
                    focus_from_label
                } else {
                    move_focus_to
                };
            },
            KbgpState::PendingInput(ps) => {
                ps.prepare(&pending_input.current_input);
            },
        }
        let revert = match &self.state {
            KbgpState::PendingInput(_) => self.common.is_empty(),
            KbgpState::Navigation(_) => false,
        };
        if revert {
            self.state = KbgpState::Navigation(KbgpNavigationState::new());
        }
        out
    }

    /// Mark a node as navigable this frame: record its identifier and its
    /// rectangle in the registry.
    pub fn kbgp_navigation(&mut self, id: u64, rect: Rect)
        requires
            old(self).wf(),
        ensures
            final(self).wf(),
            final(self).state == old(self).state,
            final(self).common.lookup(id) == Some(
                crate::registry::NodeEntry { id, rect, seen: true },
            ),
            forall|k: u64|
                k != id ==> final(self).common.lookup(k) == old(self).common.lookup(k),
            match old(self).common.lookup(id) {
                Some(e0) => exists|i: int|
                    0 <= i < old(self).common@.len() && old(self).common@[i] == e0
                        && final(self).common@ == old(self).common@.update(
                        i,
                        crate::registry::NodeEntry { id, rect, seen: true },
                    ),
                None => final(self).common@ == old(self).common@.push(
                    crate::registry::NodeEntry { id, rect, seen: true },
                ),
            },
    {
        self.common.register(id, rect);
    }

    /// Claim this frame's focus label for a node: if the pending label
    /// equals `label`, the node will be focused next frame and the label is
    /// consumed.
    pub fn kbgp_focus_label(&mut self, id: u64, label: u64)
        requires
            old(self).wf(),
        ensures
            final(self).wf(),
            final(self).common == old(self).common,
            match old(self).state {
                KbgpState::Navigation(ns) => if ns.focus_label == Some(label) {
                    final(self).state matches KbgpState::Navigation(ns2) && ns2 == (
                    KbgpNavigationState {
                        focus_label: None,
                        focus_on: Some(id),
                        ..ns
                    })
                } else {
                    final(self).state == old(self).state
                },
                KbgpState::PendingInput(_) => final(self).state == old(self).state,
            },
    {
        match &mut self.state {
            KbgpState::Navigation(ns) => {
                let claim = match ns.focus_label {
                    Some(l) => l == label,
                    None => false,
                };
                if claim {
                    ns.focus_label = None;
                    ns.focus_on = Some(id);
                }
            },
            KbgpState::PendingInput(_) => {},
        }
    }

    /// Focus this node when the UI first appears.
    pub fn kbgp_initial_focus(&mut self, id: u64)
        requires
            old(self).wf(),
        ensures
            final(self).wf(),
            final(self).common == old(self).common,
            match old(self).state {
                KbgpState::Navigation(ns) => if ns.focus_label == Some(KBGP_INITIAL_FOCUS_LABEL) {
                    final(self).state matches KbgpState::Navigation(ns2) && ns2 == (
                    KbgpNavigationState {
                        focus_label: None,
                        focus_on: Some(id),
                        ..ns
                    })
                } else {
                    final(self).state == old(self).state
                },
                KbgpState::PendingInput(_) => final(self).state == old(self).state,
            },
    {
        self.kbgp_focus_label(id, KBGP_INITIAL_FOCUS_LABEL)
    }

    /// Request that the node marked with `label` receive focus next frame.
    pub fn kbgp_set_focus_label(&mut self, label: u64)
        requires
            old(self).wf(),
        ensures
            final(self).wf(),
            final(self).common == old(self).common,
            match old(self).state {
                KbgpState::Navigation(ns) => final(self).state matches KbgpState::Navigation(ns2)
                    && ns2 == (KbgpNavigationState { next_frame_focus_label: Some(label), ..ns }),
                KbgpState::PendingInput(_) => final(self).state == old(self).state,
            },
    {
        match &mut self.state {
            KbgpState::Navigation(ns) => {
                ns.next_frame_focus_label = Some(label);
            },
            KbgpState::PendingInput(_) => {},
        }
    }

    /// Drop this frame's input: the pending user action is cleared and the
    /// activation machine is invalidated, so the physical press that
    /// triggered a state transition is not read again by the new state.
    /// Must be called right after triggering any transition from inside a
    /// navigation or activation handler.
    pub fn kbgp_clear_input(&mut self)
        requires
            old(self).wf(),
        ensures
            final(self).wf(),
            final(self).common == old(self).common,
            match old(self).state {
                KbgpState::Navigation(ns) => final(self).state matches KbgpState::Navigation(ns2)
                    && ns2 == (KbgpNavigationState {
                    user_action: None,
                    pending_release_state: PendingReleaseState::Invalidated {
                        cooldown_frame: true,
                    },
                    ..ns
                }),
                KbgpState::PendingInput(_) => final(self).state == old(self).state,
            },
    {
        match &mut self.state {
            KbgpState::Navigation(ns) => {
                ns.user_action = None;
                ns.pending_release_state = PendingReleaseState::Invalidated {
                    cooldown_frame: true,
                };
            },
            KbgpState::PendingInput(_) => {},
        }
    }

    /// The user action that fired this frame, if any.
    pub fn kbgp_user_action(&self) -> (r: Option<A>)
        ensures
            r == current_user_action(self.state),
    {
        match &self.state {
            KbgpState::Navigation(ns) => ns.user_action,
            KbgpState::PendingInput(_) => None,
        }
    }

    /// The user action whose hold was released this frame, if any.
    pub fn kbgp_user_action_released(&self) -> (r: Option<A>)
        ensures
            r == released_user_action(self.state),
    {
        match &self.state {
            KbgpState::Navigation(ns) => match &ns.pending_release_state {
                PendingReleaseState::NodeHoldReleased { user_action, .. } => *user_action,
                PendingReleaseState::GlobalHoldReleased { user_action } => Some(*user_action),
                _ => None,
            },
            KbgpState::PendingInput(_) => None,
        }
    }

    /// How the node was activated this frame. The `clicked` flags are the
    /// toolkit's own click reports for the node; `has_focus` is whether the
    /// toolkit reports it focused.
    pub fn kbgp_activated(
        &self,
        clicked: bool,
        secondary_clicked: bool,
        middle_clicked: bool,
        has_focus: bool,
    ) -> (r: KbgpNavActivation<A>)
        ensures
            r == (if clicked {
                KbgpNavActivation::<A>::Clicked
            } else if secondary_clicked {
                KbgpNavActivation::<A>::ClickedSecondary
            } else if middle_clicked {
                KbgpNavActivation::<A>::ClickedMiddle
            } else if has_focus && current_user_action(self.state) is Some {
                KbgpNavActivation::User(current_user_action(self.state)->0)
            } else {
                KbgpNavActivation::<A>::Idle
            }),
    {
        if clicked {
            KbgpNavActivation::Clicked
        } else if secondary_clicked {
            KbgpNavActivation::ClickedSecondary
        } else if middle_clicked {
            KbgpNavActivation::ClickedMiddle
        } else {
            let action = if has_focus {
                self.kbgp_user_action()
            } else {
                None
            };
            match action {
                Some(a) => KbgpNavActivation::User(a),
                None => KbgpNavActivation::Idle,
            }
        }
    }

    /// Whether the node's activation was released this frame. The
    /// `mouse_click_released` flag is the toolkit's own "the pointer's
    /// primary button was released over this node" report, kept so mouse
    /// clicks still work.
    pub fn kbgp_click_released(&self, id: u64, mouse_click_released: bool) -> (r: bool)
        ensures
            r == (click_released_on(self.state, id) || mouse_click_released),
    {
        let from_hold = match &self.state {
            KbgpState::Navigation(ns) => match &ns.pending_release_state {
                PendingReleaseState::NodeHoldReleased { id: rid, user_action } => *rid == id
                    && user_action.is_none(),
                _ => false,
            },
            KbgpState::PendingInput(_) => false,
        };
        from_hold || mouse_click_released
    }

    /// Like [`kbgp_activated`](Self::kbgp_activated), but the primary and
    /// user activations fire on release instead of on press.
    pub fn kbgp_activate_released(
        &self,
        id: u64,
        mouse_click_released: bool,
        secondary_clicked: bool,
        middle_clicked: bool,
        has_focus: bool,
    ) -> (r: KbgpNavActivation<A>)
        ensures
            r == (if click_released_on(self.state, id) || mouse_click_released {
                KbgpNavActivation::<A>::Clicked
            } else if secondary_clicked {
                KbgpNavActivation::<A>::ClickedSecondary
            } else if middle_clicked {
                KbgpNavActivation::<A>::ClickedMiddle
            } else if has_focus && node_released_user_action(self.state, id) is Some {
                KbgpNavActivation::User(node_released_user_action(self.state, id)->0)
            } else {
                KbgpNavActivation::<A>::Idle
            }),
    {
        if self.kbgp_click_released(id, mouse_click_released) {
            KbgpNavActivation::Clicked
        } else if secondary_clicked {
            KbgpNavActivation::ClickedSecondary
        } else if middle_clicked {
            KbgpNavActivation::ClickedMiddle
        } else {
            let action = if has_focus {
                match &self.state {
                    KbgpState::Navigation(ns) => match &ns.pending_release_state {
                        PendingReleaseState::NodeHoldReleased { id: rid, user_action } => if *rid
                            == id {
                            *user_action
                        } else {
                            None
                        },
                        _ => None,
                    },
                    KbgpState::PendingInput(_) => None,
                }
            } else {
                None
            };
            match action {
                Some(a) => KbgpNavActivation::User(a),
                None => KbgpNavActivation::Idle,
            }
        }
    }

    /// Remember the focused node, and when the toolkit dropped the focus
    /// entirely, ask it to restore the node that had it last.
    pub fn kbgp_prevent_loss_of_focus(&mut self, current_focus: Option<u64>) -> (r: Option<u64>)
        requires
            old(self).wf(),
        ensures
            final(self).wf(),
            final(self).common == old(self).common,
            match old(self).state {
                KbgpState::Navigation(ns) => match current_focus {
                    Some(f) => r is None && (final(self).state matches KbgpState::Navigation(ns2)
                        && ns2 == (KbgpNavigationState { last_focus: Some(f), ..ns })),
                    None => r == ns.last_focus && (final(self).state matches KbgpState::Navigation(
                        ns2,
                    ) && ns2 == (KbgpNavigationState { last_focus: None, ..ns })),
                },
                KbgpState::PendingInput(_) => r is None && final(self).state == old(self).state,
            },
    {
        match &mut self.state {
            KbgpState::Navigation(ns) => match current_focus {
                Some(f) => {
                    ns.last_focus = Some(f);
                    None
                },
                None => {
                    let restore = ns.last_focus;
                    ns.last_focus = None;
                    restore
                },
            },
            KbgpState::PendingInput(_) => None,
        }
    }

    /// Transfer focus to the node the mouse pointer moved into, if it moved
    /// onto a different node than last time. The pointer position is in
    /// integer logical pixels.
    pub fn kbgp_focus_on_mouse_movement(&mut self, pointer: Option<(i32, i32)>) -> (r: Option<u64>)
        requires
            old(self).wf(),
        ensures
            final(self).wf(),
            final(self).common == old(self).common,
            match old(self).state {
                KbgpState::Navigation(ns) => ({
                    let node_at = match pointer {
                        Some(p) => node_at_from(old(self).common@, 0, p.0, p.1),
                        None => None,
                    };
                    if node_at != ns.mouse_was_last_on {
                        r == node_at && (final(self).state matches KbgpState::Navigation(ns2) && ns2
                            == (KbgpNavigationState { mouse_was_last_on: node_at, ..ns }))
                    } else {
                        r is None && final(self).state == old(self).state
                    }
                }),
                KbgpState::PendingInput(_) => r is None && final(self).state == old(self).state,
            },
    {
        let node_at = match pointer {
            Some((x, y)) => self.common.node_at_pos(x, y),
            None => None,
        };
        match &mut self.state {
            KbgpState::Navigation(ns) => {
                if node_at != ns.mouse_was_last_on {
                    ns.mouse_was_last_on = node_at;
                    node_at
                } else {
                    None
                }
            },
            KbgpState::PendingInput(_) => None,
        }
    }

    /// The node currently recording a new binding, if any. While a capture
    /// runs, the host should keep the toolkit's focus locked on this node so
    /// navigation cannot steal the input away.
    pub fn kbgp_pending_acceptor(&self) -> (r: Option<u64>)
        ensures
            r == match self.state {
                KbgpState::PendingInput(ps) => Some(ps.acceptor_id),
                KbgpState::Navigation(_) => None::<u64>,
            },
    {
        match &self.state {
            KbgpState::PendingInput(ps) => Some(ps.acceptor_id),
            KbgpState::Navigation(_) => None,
        }
    }

    /// One frame of a pending-input query for a node, under a capture
    /// policy. See [`pending_query_relation`] for exactly what it does and
    /// returns.
    pub fn kbgp_pending_query(&mut self, id: u64, clicked: bool, policy: CapturePolicy) -> (r:
        Option<Vec<KbgpInput>>)
        requires
            old(self).wf(),
        ensures
            final(self).wf(),
            pending_query_relation(
                *old(self),
                *final(self),
                id,
                clicked,
                policy,
                match r {
                    Some(v) => Some(v@),
                    None => None::<Seq<KbgpInput>>,
                },
            ),
            r matches Some(v) ==> chord_wf(v@, policy.limit_one) && v@.len() > 0,
    {
        let in_navigation = match &self.state {
            KbgpState::Navigation(_) => true,
            KbgpState::PendingInput(_) => false,
        };
        if in_navigation {
            if clicked {
                self.state = KbgpState::PendingInput(KbgpPendingInputState::new(id, policy));
            }
            return None;
        }
        let mut finished = false;
        let mut result: Option<Vec<KbgpInput>> = None;
        match &mut self.state {
            KbgpState::PendingInput(ps) => {
                if ps.acceptor_id == id && ps.policy == policy {
                    ps.process_new_input();
                    let still_held = ps.candidate_still_held();
                    let done = if policy.limit_one {
                        ps.received_input.len() > 0 && !still_held
                    } else {
                        ps.received_input.len() > 0 && ps.input_this_frame.len() == 0
                    };
                    if done {
                        result = Some(ps.received_vec());
                        finished = true;
                    }
                }
            },
            KbgpState::Navigation(_) => {},
        }
        if finished {
            self.state = KbgpState::Navigation(KbgpNavigationState::new());
        }
        result
    }

    /// Accept a single input from this node: a click starts the capture,
    /// and once the player pressed one input and released it, that input is
    /// returned.
    pub fn kbgp_pending_input(&mut self, id: u64, clicked: bool) -> (r: Option<KbgpInput>)
        requires
            old(self).wf(),
        ensures
            final(self).wf(),
            pending_query_relation(
                *old(self),
                *final(self),
                id,
                clicked,
                CapturePolicy { filter: InputFilter::Any, limit_one: true },
                match r {
                    Some(inp) => Some(seq![inp]),
                    None => None::<Seq<KbgpInput>>,
                },
            ),
    {
        self.pending_single(id, clicked, InputFilter::Any)
    }

    /// Accept a single input from this node, limited to one input source.
    pub fn kbgp_pending_input_of_source(
        &mut self,
        id: u64,
        clicked: bool,
        source: KbgpInputSource,
    ) -> (r: Option<KbgpInput>)
        requires
            old(self).wf(),
        ensures
            final(self).wf(),
            pending_query_relation(
                *old(self),
                *final(self),
                id,
                clicked,
                CapturePolicy { filter: InputFilter::OfSource(source), limit_one: true },
                match r {
                    Some(inp) => Some(seq![inp]),
                    None => None::<Seq<KbgpInput>>,
                },
            ),
    {
        self.pending_single(id, clicked, InputFilter::OfSource(source))
    }

    /// The shared body of the single-input queries.
    fn pending_single(&mut self, id: u64, clicked: bool, filter: InputFilter) -> (r: Option<
        KbgpInput,
    >)
        requires
            old(self).wf(),
        ensures
            final(self).wf(),
            pending_query_relation(
                *old(self),
                *final(self),
                id,
                clicked,
                CapturePolicy { filter, limit_one: true },
                match r {
                    Some(inp) => Some(seq![inp]),
                    None => None::<Seq<KbgpInput>>,
                },
            ),
    {
        let policy = CapturePolicy { filter, limit_one: true };
        match self.kbgp_pending_query(id, clicked, policy) {
            Some(chord) => {
                proof {
                    assert(chord@.len() == 1);
                    assert(chord@ =~= seq![chord@[0]]);
                }
                Some(chord[0])
            },
            None => None,
        }
    }

    /// Accept a chord of inputs from this node: a click starts the capture,
    /// and once at least one input was pressed and everything pressed was
    /// released, the accumulated chord is returned.
    pub fn kbgp_pending_chord(&mut self, id: u64, clicked: bool) -> (r: Option<Vec<KbgpInput>>)
        requires
            old(self).wf(),
        ensures
            final(self).wf(),
            pending_query_relation(
                *old(self),
                *final(self),
                id,
                clicked,
                CapturePolicy { filter: InputFilter::Any, limit_one: false },
                match r {
                    Some(v) => Some(v@),
                    None => None::<Seq<KbgpInput>>,
                },
            ),
    {
        self.kbgp_pending_query(id, clicked, CapturePolicy { filter: InputFilter::Any, limit_one: false })
    }

    /// Accept a chord of inputs from this node, limited to one input
    /// source.
    pub fn kbgp_pending_chord_of_source(&mut self, id: u64, clicked: bool, source: KbgpInputSource)
        -> (r: Option<Vec<KbgpInput>>)
        requires
            old(self).wf(),
        ensures
            final(self).wf(),
            pending_query_relation(
                *old(self),
                *final(self),
                id,
                clicked,
                CapturePolicy { filter: InputFilter::OfSource(source), limit_one: false },
                match r {
                    Some(v) => Some(v@),
                    None => None::<Seq<KbgpInput>>,
                },
            ),
    {
        self.kbgp_pending_query(
            id,
            clicked,
            CapturePolicy { filter: InputFilter::OfSource(source), limit_one: false },
        )
    }

    /// Accept a chord of inputs from this node, where all inputs come from
    /// the same source: either one gamepad, or the keyboard and the mouse.
    pub fn kbgp_pending_chord_same_source(&mut self, id: u64, clicked: bool) -> (r: Option<
        Vec<KbgpInput>,
    >)
        requires
            old(self).wf(),
        ensures
            final(self).wf(),
            pending_query_relation(
                *old(self),
                *final(self),
                id,
                clicked,
                CapturePolicy { filter: InputFilter::SameSource, limit_one: false },
                match r {
                    Some(v) => Some(v@),
                    None => None::<Seq<KbgpInput>>,
                },
            ),
    {
        self.kbgp_pending_query(
            id,
            clicked,
            CapturePolicy { filter: InputFilter::SameSource, limit_one: false },
        )
    }
}

/// Clearing the input holds for the whole next frame: after
/// [`Kbgp::kbgp_clear_input`], the next frame's effective command set
/// carries no user action — even if the physical input is still held — as
/// long as that frame is not a repeat tick (the raw command set is
/// unchanged and the repeat deadline has not passed, or the raw set changed
/// at all, so the held bit is no edge). The activation machine stays
/// invalidated as well, so the release queries also answer nothing.
pub proof fn lemma_clear_input_silences_next_frame<A>(
    prev_input: CommandBits,
    cmds: CommandBits,
    now: u64,
    next_navigation: u64,
    focus: Option<u64>,
    prev_action: Option<A>,
)
    requires
        prev_input.user,
        cmds.user,
        cmds == prev_input ==> now < next_navigation,
    ensures
        !effective_commands(prev_input, cmds, now, next_navigation).user,
        release_step(
            PendingReleaseState::<A>::Invalidated { cooldown_frame: true },
            cmds,
            focus,
            prev_action,
        ) == (PendingReleaseState::<A>::Invalidated { cooldown_frame: false }),
{
}

} // verus!
