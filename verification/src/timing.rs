//! The edge/repeat timing controller.
//!
//! A physical input that stays held would otherwise fire its command on every
//! rendered frame. The controller lets a command through immediately on the
//! frame its raw set changes (a press edge), then suppresses it until a first
//! delay has passed, and after that lets the whole held set through again at a
//! fixed repeat interval. Time is the host clock in microseconds.

use vstd::prelude::*;

use crate::bits::CommandBits;

verus! {

/// Default wait after the first input before repeating, in microseconds.
pub const DEFAULT_MICROS_AFTER_FIRST_INPUT: u64 = 600000;

/// Default spacing between repeated inputs, in microseconds.
pub const DEFAULT_MICROS_BETWEEN_INPUTS: u64 = 40000;

/// The commands that take effect on a frame with raw set `cmds`, given the
/// previous frame's raw set, the clock `now` and the repeat deadline
/// `next_allowed`:
/// - with nothing asserted, nothing takes effect;
/// - a changed raw set lets exactly the newly asserted commands through;
/// - an unchanged raw set is suppressed until `next_allowed`, then passes
///   whole.
pub open spec fn effective_commands(
    prev: CommandBits,
    cmds: CommandBits,
    now: u64,
    next_allowed: u64,
) -> CommandBits {
    if !cmds.any() {
        CommandBits::empty()
    } else if cmds != prev {
        cmds.minus(prev)
    } else if now < next_allowed {
        CommandBits::empty()
    } else {
        cmds
    }
}

/// The repeat deadline after a frame with raw set `cmds`: a press edge arms
/// the first delay, a repeat that fired arms the repeat interval, anything
/// else leaves the deadline alone.
pub open spec fn next_allowed_after(
    prev: CommandBits,
    cmds: CommandBits,
    now: u64,
    next_allowed: u64,
    first_delay: u64,
    between: u64,
) -> int {
    if !cmds.any() {
        next_allowed as int
    } else if cmds != prev {
        now + first_delay
    } else if now < next_allowed {
        next_allowed as int
    } else {
        now + between
    }
}

/// Apply one frame of edge/repeat throttling. Returns the effective command
/// set and the new repeat deadline.
pub fn throttle(
    prev: CommandBits,
    cmds: CommandBits,
    now: u64,
    next_allowed: u64,
    first_delay: u64,
    between: u64,
) -> (r: (CommandBits, u64))
    requires
        now + first_delay <= u64::MAX,
        now + between <= u64::MAX,
    ensures
        r.0 == effective_commands(prev, cmds, now, next_allowed),
        r.1 == next_allowed_after(prev, cmds, now, next_allowed, first_delay, between),
{
    if !cmds.is_any() {
        (CommandBits::new(), next_allowed)
    } else if cmds != prev {
        (cmds.but_not(&prev), now + first_delay)
    } else if now < next_allowed {
        (CommandBits::new(), next_allowed)
    } else {
        (cmds, now + between)
    }
}

/// A press edge always fires: on the frame the raw set changes, every newly
/// asserted command is effective immediately, and the first delay is armed so
/// that holding it cannot fire again before `now + first_delay`.
pub proof fn lemma_edge_fires(
    prev: CommandBits,
    cmds: CommandBits,
    now: u64,
    next_allowed: u64,
    first_delay: u64,
    between: u64,
)
    requires
        cmds.any(),
        cmds != prev,
    ensures
        effective_commands(prev, cmds, now, next_allowed) == cmds.minus(prev),
        next_allowed_after(prev, cmds, now, next_allowed, first_delay, between) == now
            + first_delay,
{
}

/// A held, unchanged raw set is fully suppressed on every frame before the
/// deadline: no command is effective and the deadline does not move.
pub proof fn lemma_hold_suppressed(
    prev: CommandBits,
    cmds: CommandBits,
    now: u64,
    next_allowed: u64,
    first_delay: u64,
    between: u64,
)
    requires
        cmds == prev,
        now < next_allowed,
    ensures
        effective_commands(prev, cmds, now, next_allowed) == CommandBits::empty(),
        next_allowed_after(prev, cmds, now, next_allowed, first_delay, between) == next_allowed,
{
}

/// Repeats are never spaced closer than the repeat interval: when a held set
/// fires at time `t1`, a later frame at `t2 < t1 + between` with the set
/// still held is suppressed entirely.
pub proof fn lemma_repeat_never_faster(
    prev: CommandBits,
    cmds: CommandBits,
    t1: u64,
    t2: u64,
    next_allowed: u64,
    first_delay: u64,
    between: u64,
)
    requires
        cmds.any(),
        cmds == prev,
        t1 >= next_allowed,
        t2 < t1 + between,
        t1 + between <= u64::MAX,
    ensures
        effective_commands(prev, cmds, t1, next_allowed) == cmds,
        effective_commands(
            prev,
            cmds,
            t2,
            next_allowed_after(prev, cmds, t1, next_allowed, first_delay, between) as u64,
        ) == CommandBits::empty(),
{
}

} // verus!
