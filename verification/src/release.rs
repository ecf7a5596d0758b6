//! The press/hold/release activation state machine.
//!
//! Immediate-mode toolkits fire a click on the press edge. For "leave this menu"
//! commands that is too early: the same physical press would bleed into the
//! state entered by the click. This machine watches the raw activation
//! commands (Click and the user-action class) across frames and derives a
//! one-frame "released" pulse that fires only when the command clears while
//! focus is still on the node that was held. The payload type `A` is the
//! host's user-action value; it is `Copy` so a payload captured at press time
//! can be handed out at release time.

use vstd::prelude::*;

use crate::bits::CommandBits;

verus! {

/// Where a held activation currently stands.
#[derive(Clone, Copy, Debug)]
pub enum PendingReleaseState<A> {
    /// No activation command is being tracked.
    Idle,
    /// Click or a user action is held while node `id` has focus.
    NodeHeld { id: u64, is_user_action: bool, user_action: Option<A> },
    /// The hold on node `id` was released this frame: a one-frame pulse.
    NodeHoldReleased { id: u64, user_action: Option<A> },
    /// A user action is held with no node focused.
    GloballyHeld { user_action: Option<A> },
    /// The global hold was released this frame: a one-frame pulse.
    GlobalHoldReleased { user_action: A },
    /// The tracked press was ambiguous or cancelled; wait for the Click
    /// command to clear. `cooldown_frame` keeps the invalidation alive for
    /// one extra frame after the input was cleared by the application.
    Invalidated { cooldown_frame: bool },
}

/// One frame of the machine, given the frame's raw (unthrottled) command
/// set, the node the toolkit reports as focused, and the user-action payload
/// produced by the previous frame's bindings.
pub open spec fn release_step<A>(
    s: PendingReleaseState<A>,
    raw: CommandBits,
    focus: Option<u64>,
    prev_action: Option<A>,
) -> PendingReleaseState<A> {
    match s {
        PendingReleaseState::Idle => {
            if !raw.click && !raw.user {
                PendingReleaseState::Idle
            } else if raw.click && !raw.user {
                if focus is Some {
                    PendingReleaseState::NodeHeld {
                        id: focus->0,
                        is_user_action: false,
                        user_action: prev_action,
                    }
                } else {
                    PendingReleaseState::Invalidated { cooldown_frame: false }
                }
            } else if raw.user && !raw.click {
                if focus is Some {
                    PendingReleaseState::NodeHeld {
                        id: focus->0,
                        is_user_action: true,
                        user_action: prev_action,
                    }
                } else {
                    PendingReleaseState::GloballyHeld { user_action: prev_action }
                }
            } else {
                PendingReleaseState::Invalidated { cooldown_frame: false }
            }
        },
        PendingReleaseState::NodeHeld { id, is_user_action, user_action } => {
            if !raw.click && !raw.user {
                if focus == Some(id) {
                    PendingReleaseState::NodeHoldReleased {
                        id,
                        user_action: if user_action is Some {
                            user_action
                        } else {
                            prev_action
                        },
                    }
                } else {
                    PendingReleaseState::Idle
                }
            } else if raw.click && !raw.user {
                if is_user_action {
                    PendingReleaseState::Invalidated { cooldown_frame: false }
                } else {
                    s
                }
            } else if raw.user && !raw.click {
                if !is_user_action {
                    PendingReleaseState::Invalidated { cooldown_frame: false }
                } else if prev_action is Some {
                    PendingReleaseState::NodeHeld { id, is_user_action, user_action: prev_action }
                } else {
                    s
                }
            } else {
                PendingReleaseState::Invalidated { cooldown_frame: false }
            }
        },
        PendingReleaseState::NodeHoldReleased { .. } => PendingReleaseState::Idle,
        PendingReleaseState::GloballyHeld { user_action } => {
            if !raw.click && !raw.user {
                if user_action is Some {
                    PendingReleaseState::GlobalHoldReleased { user_action: user_action->0 }
                } else if prev_action is Some {
                    PendingReleaseState::GlobalHoldReleased { user_action: prev_action->0 }
                } else {
                    PendingReleaseState::Idle
                }
            } else if raw.user && !raw.click {
                if prev_action is Some {
                    PendingReleaseState::GloballyHeld { user_action: prev_action }
                } else {
                    s
                }
            } else {
                PendingReleaseState::Invalidated { cooldown_frame: false }
            }
        },
        PendingReleaseState::GlobalHoldReleased { .. } => PendingReleaseState::Idle,
        PendingReleaseState::Invalidated { cooldown_frame } => {
            if cooldown_frame {
                PendingReleaseState::Invalidated { cooldown_frame: false }
            } else if !raw.click {
                PendingReleaseState::Idle
            } else {
                PendingReleaseState::Invalidated { cooldown_frame: false }
            }
        },
    }
}

impl<A: Copy> PendingReleaseState<A> {
    /// Advance the machine by one frame.
    pub fn step(self, raw: CommandBits, focus: Option<u64>, prev_action: Option<A>) -> (r:
        PendingReleaseState<A>)
        ensures
            r == release_step(self, raw, focus, prev_action),
    {
        match self {
            PendingReleaseState::Idle => {
                if !raw.click && !raw.user {
                    PendingReleaseState::Idle
                } else if raw.click && !raw.user {
                    if let Some(id) = focus {
                        PendingReleaseState::NodeHeld {
                            id,
                            is_user_action: false,
                            user_action: prev_action,
                        }
                    } else {
                        PendingReleaseState::Invalidated { cooldown_frame: false }
                    }
                } else if raw.user && !raw.click {
                    if let Some(id) = focus {
                        PendingReleaseState::NodeHeld {
                            id,
                            is_user_action: true,
                            user_action: prev_action,
                        }
                    } else {
                        PendingReleaseState::GloballyHeld { user_action: prev_action }
                    }
                } else {
                    PendingReleaseState::Invalidated { cooldown_frame: false }
                }
            },
            PendingReleaseState::NodeHeld { id, is_user_action, user_action } => {
                if !raw.click && !raw.user {
                    if focus == Some(id) {
                        PendingReleaseState::NodeHoldReleased {
                            id,
                            user_action: if user_action.is_some() {
                                user_action
                            } else {
                                prev_action
                            },
                        }
                    } else {
                        PendingReleaseState::Idle
                    }
                } else if raw.click && !raw.user {
                    if is_user_action {
                        PendingReleaseState::Invalidated { cooldown_frame: false }
                    } else {
                        self
                    }
                } else if raw.user && !raw.click {
                    if !is_user_action {
                        PendingReleaseState::Invalidated { cooldown_frame: false }
                    } else if prev_action.is_some() {
                        PendingReleaseState::NodeHeld { id, is_user_action, user_action: prev_action }
                    } else {
                        self
                    }
                } else {
                    PendingReleaseState::Invalidated { cooldown_frame: false }
                }
            },
            PendingReleaseState::NodeHoldReleased { .. } => PendingReleaseState::Idle,
            PendingReleaseState::GloballyHeld { user_action } => {
                if !raw.click && !raw.user {
                    if let Some(a) = user_action {
                        PendingReleaseState::GlobalHoldReleased { user_action: a }
                    } else if let Some(a) = prev_action {
                        PendingReleaseState::GlobalHoldReleased { user_action: a }
                    } else {
                        PendingReleaseState::Idle
                    }
                } else if raw.user && !raw.click {
                    if prev_action.is_some() {
                        PendingReleaseState::GloballyHeld { user_action: prev_action }
                    } else {
                        self
                    }
                } else {
                    PendingReleaseState::Invalidated { cooldown_frame: false }
                }
            },
            PendingReleaseState::GlobalHoldReleased { .. } => PendingReleaseState::Idle,
            PendingReleaseState::Invalidated { cooldown_frame } => {
                if cooldown_frame {
                    PendingReleaseState::Invalidated { cooldown_frame: false }
                } else if !raw.click {
                    PendingReleaseState::Idle
                } else {
                    PendingReleaseState::Invalidated { cooldown_frame: false }
                }
            },
        }
    }
}

/// While a plain Click stays held on a focused node, the machine keeps
/// waiting and no release pulse exists: the "activate on release" queries
/// have nothing to report.
pub proof fn lemma_click_hold_is_silent<A>(
    id: u64,
    user_action: Option<A>,
    raw: CommandBits,
    focus: Option<u64>,
    prev_action: Option<A>,
)
    requires
        raw.click,
        !raw.user,
    ensures
        release_step(
            PendingReleaseState::NodeHeld { id, is_user_action: false, user_action },
            raw,
            focus,
            prev_action,
        ) == (PendingReleaseState::<A>::NodeHeld { id, is_user_action: false, user_action }),
{
}

/// When the held Click clears while focus is still on the same node, the
/// release pulse fires, and it lasts exactly one frame: the next step leaves
/// the pulse again, whatever happens.
pub proof fn lemma_release_fires_one_frame<A>(
    id: u64,
    is_user_action: bool,
    user_action: Option<A>,
    raw: CommandBits,
    next_raw: CommandBits,
    next_focus: Option<u64>,
    prev_action: Option<A>,
    next_prev_action: Option<A>,
)
    requires
        !raw.click,
        !raw.user,
    ensures
        ({
            let released = release_step(
                PendingReleaseState::NodeHeld { id, is_user_action, user_action },
                raw,
                Some(id),
                prev_action,
            );
            &&& released matches PendingReleaseState::NodeHoldReleased { id: rid, .. } && rid == id
            &&& release_step(released, next_raw, next_focus, next_prev_action)
                matches PendingReleaseState::Idle
        }),
{
}

/// If focus moves away while the activation is held, releasing it fires no
/// pulse at all: the machine falls back to Idle.
pub proof fn lemma_no_release_after_focus_moved<A>(
    id: u64,
    is_user_action: bool,
    user_action: Option<A>,
    raw: CommandBits,
    focus: Option<u64>,
    prev_action: Option<A>,
)
    requires
        !raw.click,
        !raw.user,
        focus != Some(id),
    ensures
        release_step(
            PendingReleaseState::NodeHeld { id, is_user_action, user_action },
            raw,
            focus,
            prev_action,
        ) == (PendingReleaseState::<A>::Idle),
{
}

/// Mixing the two activation classes while one is held invalidates the hold
/// instead of combining them.
pub proof fn lemma_mixed_activation_invalidates<A>(
    id: u64,
    is_user_action: bool,
    user_action: Option<A>,
    raw: CommandBits,
    focus: Option<u64>,
    prev_action: Option<A>,
)
    requires
        raw.click,
        raw.user,
    ensures
        release_step(
            PendingReleaseState::NodeHeld { id, is_user_action, user_action },
            raw,
            focus,
            prev_action,
        ) == (PendingReleaseState::<A>::Invalidated { cooldown_frame: false }),
{
}

} // verus!
