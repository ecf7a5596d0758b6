use kbgp::bits::CommandBits;
use kbgp::timing::{throttle, DEFAULT_MICROS_AFTER_FIRST_INPUT, DEFAULT_MICROS_BETWEEN_INPUTS};

fn up() -> CommandBits {
    let mut c = CommandBits::new();
    c.up = true;
    c
}

const FIRST: u64 = DEFAULT_MICROS_AFTER_FIRST_INPUT;
const BETWEEN: u64 = DEFAULT_MICROS_BETWEEN_INPUTS;

#[test]
fn press_edge_fires_immediately() {
    let (eff, next) = throttle(CommandBits::new(), up(), 1000, 0, FIRST, BETWEEN);
    assert_eq!(eff, up());
    assert_eq!(next, 1000 + FIRST);
}

#[test]
fn holding_is_suppressed_before_the_first_delay() {
    let (_, next) = throttle(CommandBits::new(), up(), 0, 0, FIRST, BETWEEN);
    // Every frame of the hold before the deadline yields nothing and
    // leaves the deadline alone.
    let mut t: u64 = 16000;
    while t < FIRST {
        let (eff, next2) = throttle(up(), up(), t, next, FIRST, BETWEEN);
        assert_eq!(eff, CommandBits::new());
        assert_eq!(next2, next);
        t += 160000;
    }
}

#[test]
fn holding_past_the_first_delay_repeats_at_the_interval() {
    let (_, next) = throttle(CommandBits::new(), up(), 0, 0, FIRST, BETWEEN);
    // The first repeat fires once the deadline passes...
    let (eff, next) = throttle(up(), up(), FIRST, next, FIRST, BETWEEN);
    assert_eq!(eff, up());
    assert_eq!(next, FIRST + BETWEEN);
    // ...then nothing until a full interval has passed...
    let (eff, next2) = throttle(up(), up(), FIRST + BETWEEN - 1, next, FIRST, BETWEEN);
    assert_eq!(eff, CommandBits::new());
    assert_eq!(next2, next);
    // ...and the next repeat exactly at the interval, never faster.
    let (eff, _) = throttle(up(), up(), FIRST + BETWEEN, next, FIRST, BETWEEN);
    assert_eq!(eff, up());
}

#[test]
fn release_and_repress_is_a_fresh_edge() {
    let (_, next) = throttle(CommandBits::new(), up(), 0, 0, FIRST, BETWEEN);
    // Release: nothing asserted, deadline untouched.
    let (eff, next) = throttle(up(), CommandBits::new(), 10000, next, FIRST, BETWEEN);
    assert_eq!(eff, CommandBits::new());
    // Press again well before the old deadline: it is an edge and fires.
    let (eff, next2) = throttle(CommandBits::new(), up(), 20000, next, FIRST, BETWEEN);
    assert_eq!(eff, up());
    assert_eq!(next2, 20000 + FIRST);
}

#[test]
fn a_changed_set_passes_only_the_new_commands() {
    // Up is held, Right is newly pressed: only Right is effective, and the
    // first delay is re-armed.
    let mut both = up();
    both.right = true;
    let mut right = CommandBits::new();
    right.right = true;
    let (eff, next) = throttle(up(), both, 5000, 700000, FIRST, BETWEEN);
    assert_eq!(eff, right);
    assert_eq!(next, 5000 + FIRST);
}
