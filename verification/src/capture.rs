//! The pending-input (chord capture) state machine.
//!
//! While a node is recording a new binding, the engine intercepts the raw
//! pressed-input set for one or more frames. Everything already held on the
//! first frame becomes an ignored baseline (the press that triggered the
//! recording must not count); afterwards, any input pressed while recording
//! is a candidate, and the capture's policy decides whether it joins the
//! chord. Accepting one pole of a gamepad axis evicts the opposite pole, as
//! do opposite mouse wheel directions. Once something was received and every
//! received input was let go, the chord is complete.

use vstd::prelude::*;

use crate::input::{KbgpInput, KbgpInputSource};

verus! {

/// Membership after a push: the pushed element and nothing else is added.
pub proof fn lemma_contains_push<T>(s: Seq<T>, e: T, y: T)
    ensures
        s.push(e).contains(y) <==> (s.contains(y) || y == e),
{
    if s.push(e).contains(y) {
        let i = choose|i: int| 0 <= i < s.push(e).len() && s.push(e)[i] == y;
        if i < s.len() {
            assert(s[i] == y);
        }
    }
    if s.contains(y) {
        let i = choose|i: int| 0 <= i < s.len() && s[i] == y;
        assert(s.push(e)[i] == y);
    }
    assert(s.push(e)[s.len() as int] == e);
}

/// A push keeps elements distinct exactly when the pushed element is new.
pub proof fn lemma_no_dups_push<T>(s: Seq<T>, e: T)
    requires
        s.no_duplicates(),
        !s.contains(e),
    ensures
        s.push(e).no_duplicates(),
{
    assert forall|i: int, j: int|
        0 <= i < s.push(e).len() && 0 <= j < s.push(e).len() && i != j implies s.push(e)[i]
        != s.push(e)[j] by {
        if i < s.len() && j < s.len() {
        } else if j == s.len() {
            assert(s[i] == s.push(e)[i]);
            if s.push(e)[i] == e {
                assert(s.contains(e));
            }
        } else {
            assert(s[j] == s.push(e)[j]);
            if s.push(e)[j] == e {
                assert(s.contains(e));
            }
        }
    }
}

/// The sequence with every occurrence of `x` removed, order kept.
pub open spec fn remove_all<T>(s: Seq<T>, x: T) -> Seq<T>
    decreases s.len(),
{
    if s.len() == 0 {
        Seq::empty()
    } else {
        let rest = remove_all(s.drop_last(), x);
        if s.last() == x {
            rest
        } else {
            rest.push(s.last())
        }
    }
}

/// What removal leaves: everything but `x`.
pub proof fn lemma_remove_all_contains<T>(s: Seq<T>, x: T, y: T)
    ensures
        remove_all(s, x).contains(y) <==> (s.contains(y) && y != x),
        remove_all(s, x).len() <= s.len(),
    decreases s.len(),
{
    if s.len() == 0 {
    } else {
        assert(s.drop_last().push(s.last()) =~= s);
        lemma_remove_all_contains(s.drop_last(), x, y);
        lemma_contains_push(s.drop_last(), s.last(), y);
        if s.last() != x {
            lemma_contains_push(remove_all(s.drop_last(), x), s.last(), y);
        }
    }
}

/// Removal keeps elements distinct.
pub proof fn lemma_remove_all_no_dups<T>(s: Seq<T>, x: T)
    requires
        s.no_duplicates(),
    ensures
        remove_all(s, x).no_duplicates(),
    decreases s.len(),
{
    if s.len() == 0 {
    } else {
        assert forall|i: int| 0 <= i < s.drop_last().len() implies s.drop_last()[i] != s.last() by {
            assert(s[i] == s.drop_last()[i]);
        }
        assert(!s.drop_last().contains(s.last()));
        lemma_remove_all_no_dups(s.drop_last(), x);
        if s.last() != x {
            lemma_remove_all_contains(s.drop_last(), x, s.last());
            lemma_no_dups_push(remove_all(s.drop_last(), x), s.last());
        }
    }
}

/// Two inputs exclude each other symmetrically.
pub proof fn lemma_opposite_symmetric(a: KbgpInput, b: KbgpInput)
    ensures
        a.opposite() == Some(b) <==> b.opposite() == Some(a),
{
}

/// No two members of the sequence are opposite poles of each other.
pub open spec fn no_opposite_pairs(s: Seq<KbgpInput>) -> bool {
    forall|i: int, j: int|
        0 <= i < s.len() && 0 <= j < s.len() ==> (#[trigger] s[i]).opposite() != Some(#[trigger] s[j])
}

/// How a capture session vets candidate inputs.
#[derive(Clone, Copy, PartialEq, Eq, Structural, Debug)]
pub enum InputFilter {
    /// Accept input from anywhere.
    Any,
    /// Accept input from one given source only.
    OfSource(KbgpInputSource),
    /// Accept input from the source the chord started with.
    SameSource,
}

/// A capture session's acceptance policy: which inputs may join the chord,
/// and whether the chord is limited to a single input.
#[derive(Clone, Copy, PartialEq, Eq, Structural, Debug)]
pub struct CapturePolicy {
    pub filter: InputFilter,
    pub limit_one: bool,
}

/// Whether the policy lets `inp` join the chord `r`.
pub open spec fn policy_accepts(
    r: Seq<KbgpInput>,
    inp: KbgpInput,
    filter: InputFilter,
    limit_one: bool,
) -> bool {
    &&& (!limit_one || r.len() == 0)
    &&& match filter {
        InputFilter::Any => true,
        InputFilter::OfSource(src) => inp.source() == src,
        InputFilter::SameSource => r.len() == 0 || inp.source() == r[0].source(),
    }
}

/// Fold one candidate input into the chord: an accepted input evicts its
/// opposite pole and joins unless already present; a rejected one changes
/// nothing.
pub open spec fn capture_step(
    r: Seq<KbgpInput>,
    inp: KbgpInput,
    filter: InputFilter,
    limit_one: bool,
) -> Seq<KbgpInput> {
    if policy_accepts(r, inp, filter, limit_one) {
        let cleared = match inp.opposite() {
            Some(o) => remove_all(r, o),
            None => r,
        };
        if cleared.contains(inp) {
            cleared
        } else {
            cleared.push(inp)
        }
    } else {
        r
    }
}

/// Fold the frame's candidate inputs from index `i` on into the chord.
pub open spec fn capture_from(
    r: Seq<KbgpInput>,
    inputs: Seq<KbgpInput>,
    i: int,
    filter: InputFilter,
    limit_one: bool,
) -> Seq<KbgpInput>
    decreases inputs.len() - i,
{
    if i < 0 || i >= inputs.len() {
        r
    } else {
        capture_from(capture_step(r, inputs[i], filter, limit_one), inputs, i + 1, filter, limit_one)
    }
}

/// All members of the sequence come from one device family.
pub open spec fn same_source(r: Seq<KbgpInput>) -> bool {
    forall|i: int, j: int|
        0 <= i < r.len() && 0 <= j < r.len() ==> (#[trigger] r[i]).source() == (
        #[trigger] r[j]).source()
}

/// Under the same-source policy, one capture step keeps the whole chord on
/// one device family.
pub proof fn lemma_same_source_step(r: Seq<KbgpInput>, inp: KbgpInput, limit_one: bool)
    requires
        same_source(r),
    ensures
        same_source(capture_step(r, inp, InputFilter::SameSource, limit_one)),
{
    let out = capture_step(r, inp, InputFilter::SameSource, limit_one);
    if policy_accepts(r, inp, InputFilter::SameSource, limit_one) {
        let cleared = match inp.opposite() {
            Some(o) => remove_all(r, o),
            None => r,
        };
        match inp.opposite() {
            Some(o) => {
                assert forall|y: KbgpInput| #[trigger] cleared.contains(y) implies r.contains(
                    y,
                ) by {
                    lemma_remove_all_contains(r, o, y);
                }
            },
            None => {},
        }
        let srcv = if r.len() > 0 {
            r[0].source()
        } else {
            inp.source()
        };
        assert forall|i: int| 0 <= i < out.len() implies (#[trigger] out[i]).source() == srcv by {
            if i < cleared.len() {
                assert(cleared.contains(cleared[i]));
                let k = choose|k: int| 0 <= k < r.len() && r[k] == cleared[i];
                assert(r[k].source() == r[0].source());
            } else {
                assert(out[i] == inp);
            }
        }
    }
}

/// Under the same-source policy, a whole frame of candidates keeps the
/// chord on one device family: either one gamepad, or the keyboard and the
/// mouse.
pub proof fn lemma_same_source_capture(
    r: Seq<KbgpInput>,
    inputs: Seq<KbgpInput>,
    i: int,
    limit_one: bool,
)
    requires
        same_source(r),
    ensures
        same_source(capture_from(r, inputs, i, InputFilter::SameSource, limit_one)),
    decreases inputs.len() - i,
{
    if i < 0 || i >= inputs.len() {
    } else {
        lemma_same_source_step(r, inputs[i], limit_one);
        lemma_same_source_capture(
            capture_step(r, inputs[i], InputFilter::SameSource, limit_one),
            inputs,
            i + 1,
            limit_one,
        );
    }
}

/// A well-formed chord: distinct inputs, never both poles of one axis or
/// both directions of the wheel, and at most one input under a single-input
/// policy.
pub open spec fn chord_wf(r: Seq<KbgpInput>, limit_one: bool) -> bool {
    &&& r.no_duplicates()
    &&& no_opposite_pairs(r)
    &&& (limit_one ==> r.len() <= 1)
}

/// One capture step keeps the chord well-formed: in particular, accepting
/// one pole of an axis never leaves its opposite pole in the chord.
pub proof fn lemma_capture_step_wf(
    r: Seq<KbgpInput>,
    inp: KbgpInput,
    filter: InputFilter,
    limit_one: bool,
)
    requires
        chord_wf(r, limit_one),
    ensures
        chord_wf(capture_step(r, inp, filter, limit_one), limit_one),
{
    if policy_accepts(r, inp, filter, limit_one) {
        let cleared = match inp.opposite() {
            Some(o) => remove_all(r, o),
            None => r,
        };
        match inp.opposite() {
            Some(o) => {
                lemma_remove_all_no_dups(r, o);
                assert forall|y: KbgpInput| #[trigger] cleared.contains(y) implies r.contains(y)
                    && y != o by {
                    lemma_remove_all_contains(r, o, y);
                }
                lemma_remove_all_contains(r, o, inp);
            },
            None => {},
        }
        assert(cleared.no_duplicates());
        assert(no_opposite_pairs(cleared)) by {
            assert forall|i: int, j: int|
                0 <= i < cleared.len() && 0 <= j < cleared.len() implies (#[trigger] cleared[i]).opposite()
                != Some(#[trigger] cleared[j]) by {
                assert(cleared.contains(cleared[i]));
                assert(cleared.contains(cleared[j]));
            }
        }
        if !cleared.contains(inp) {
            let out = cleared.push(inp);
            lemma_no_dups_push(cleared, inp);
            assert(no_opposite_pairs(out)) by {
                assert forall|i: int, j: int|
                    0 <= i < out.len() && 0 <= j < out.len() implies (#[trigger] out[i]).opposite()
                    != Some(#[trigger] out[j]) by {
                    if i < cleared.len() && j < cleared.len() {
                        assert(out[i] == cleared[i] && out[j] == cleared[j]);
                    } else if i < cleared.len() && j == cleared.len() {
                        // An element whose opposite is `inp` would be the
                        // very pole that was just evicted.
                        assert(out[j] == inp);
                        assert(out[i] == cleared[i]);
                        if cleared[i].opposite() == Some(inp) {
                            lemma_opposite_symmetric(cleared[i], inp);
                            assert(cleared.contains(cleared[i]));
                        }
                    } else if i == cleared.len() && j < cleared.len() {
                        assert(out[i] == inp);
                        assert(out[j] == cleared[j]);
                        assert(cleared.contains(cleared[j]));
                    } else {
                        assert(out[i] == inp && out[j] == inp);
                        if inp.opposite() == Some(inp) {
                            assert(false);
                        }
                    }
                }
            }
            match inp.opposite() {
                Some(o) => {
                    lemma_remove_all_contains(r, o, inp);
                },
                None => {},
            }
            if limit_one {
                assert(r.len() == 0);
                assert(cleared.len() == 0) by {
                    if cleared.len() > 0 {
                        assert(cleared.contains(cleared[0]));
                    }
                }
            }
        } else {
            if limit_one {
                assert(r.len() == 0);
                assert(false);
            }
        }
    }
}

/// Folding a whole frame of candidates keeps the chord well-formed.
pub proof fn lemma_capture_from_wf(
    r: Seq<KbgpInput>,
    inputs: Seq<KbgpInput>,
    i: int,
    filter: InputFilter,
    limit_one: bool,
)
    requires
        chord_wf(r, limit_one),
    ensures
        chord_wf(capture_from(r, inputs, i, filter, limit_one), limit_one),
    decreases inputs.len() - i,
{
    if i < 0 || i >= inputs.len() {
    } else {
        lemma_capture_step_wf(r, inputs[i], filter, limit_one);
        lemma_capture_from_wf(
            capture_step(r, inputs[i], filter, limit_one),
            inputs,
            i + 1,
            filter,
            limit_one,
        );
    }
}

} // verus!

verus! {

/// The sequence restricted to elements not contained in `excl`, order kept.
pub open spec fn filter_not_in(s: Seq<KbgpInput>, excl: Seq<KbgpInput>) -> Seq<KbgpInput>
    decreases s.len(),
{
    if s.len() == 0 {
        Seq::empty()
    } else {
        let rest = filter_not_in(s.drop_last(), excl);
        if excl.contains(s.last()) {
            rest
        } else {
            rest.push(s.last())
        }
    }
}

/// Whether some candidate of this frame is still part of the chord.
pub open spec fn any_overlap(itf: Seq<KbgpInput>, rec: Seq<KbgpInput>) -> bool {
    exists|i: int| 0 <= i < itf.len() && rec.contains(#[trigger] itf[i])
}

/// Whether the pressed input is among the given ones.
fn contains_input(v: &Vec<KbgpInput>, x: KbgpInput) -> (b: bool)
    ensures
        b == v@.contains(x),
{
    let n = v.len();
    let mut i: usize = 0;
    while i < n
        invariant
            n == v@.len(),
            i <= n,
            forall|j: int| 0 <= j < i ==> v@[j] != x,
        decreases n - i,
    {
        if v[i] == x {
            proof {
                assert(v@[i as int] == x);
            }
            return true;
        }
        i = i + 1;
    }
    false
}

/// Remove every occurrence of an input, keeping the order.
fn remove_input(v: &mut Vec<KbgpInput>, x: KbgpInput)
    ensures
        final(v)@ == remove_all(old(v)@, x),
{
    let ghost s = v@;
    let n = v.len();
    let mut kept: Vec<KbgpInput> = Vec::new();
    let mut i: usize = 0;
    while i < n
        invariant
            n == s.len(),
            v@ == s,
            i <= n,
            kept@ == remove_all(s.take(i as int), x),
        decreases n - i,
    {
        let e = v[i];
        proof {
            assert(s.take(i as int + 1).drop_last() =~= s.take(i as int));
            assert(s.take(i as int + 1).last() == s[i as int]);
        }
        if e != x {
            kept.push(e);
        }
        i = i + 1;
    }
    proof {
        assert(s.take(n as int) =~= s);
    }
    *v = kept;
}

/// How one frame of baseline upkeep relates the capture state before and
/// after, given the full currently-pressed input set. On the first frame
/// the whole set becomes the ignored baseline; afterwards the candidates
/// are the pressed inputs outside the baseline, and the baseline shrinks to
/// the inputs still pressed.
pub open spec fn prepare_relation(
    pre: KbgpPendingInputState,
    post: KbgpPendingInputState,
    current: Seq<KbgpInput>,
) -> bool {
    &&& post.acceptor_id == pre.acceptor_id
    &&& post.policy == pre.policy
    &&& post.received_input@ == pre.received_input@
    &&& post.baseline_taken
    &&& if !pre.baseline_taken {
        &&& post.input_this_frame@ == pre.input_this_frame@
        &&& forall|x: KbgpInput| #[trigger]
            post.ignored_input@.contains(x) <==> current.contains(x)
    } else {
        &&& post.input_this_frame@ == filter_not_in(current, pre.ignored_input@)
        &&& forall|x: KbgpInput| #[trigger]
            post.ignored_input@.contains(x) <==> (pre.ignored_input@.contains(x)
                && current.contains(x))
    }
}

/// The capture state that exists while a node is recording a new binding.
pub struct KbgpPendingInputState {
    /// The node that is recording.
    pub acceptor_id: u64,
    /// The session's acceptance policy, fixed when the capture starts.
    pub policy: CapturePolicy,
    /// This frame's candidate inputs: pressed and not ignored.
    pub input_this_frame: Vec<KbgpInput>,
    /// Whether the ignored baseline has been taken since the capture
    /// started.
    pub baseline_taken: bool,
    /// The inputs that were already held when the capture started and have
    /// stayed held: they do not count toward the chord until released once.
    pub ignored_input: Vec<KbgpInput>,
    /// The chord accumulated so far.
    pub received_input: Vec<KbgpInput>,
}

impl KbgpPendingInputState {
    /// The state keeps its chord well-formed and its baseline duplicate
    /// free.
    pub open spec fn wf(self) -> bool {
        &&& chord_wf(self.received_input@, self.policy.limit_one)
        &&& self.ignored_input@.no_duplicates()
    }

    /// Start a capture session for a node under a policy.
    pub fn new(acceptor_id: u64, policy: CapturePolicy) -> (r: Self)
        ensures
            r.wf(),
            r.acceptor_id == acceptor_id,
            r.policy == policy,
            r.input_this_frame@ =~= Seq::<KbgpInput>::empty(),
            !r.baseline_taken,
            r.received_input@ =~= Seq::<KbgpInput>::empty(),
    {
        KbgpPendingInputState {
            acceptor_id,
            policy,
            input_this_frame: Vec::new(),
            baseline_taken: false,
            ignored_input: Vec::new(),
            received_input: Vec::new(),
        }
    }

    /// One frame of baseline upkeep, given the full currently-pressed input
    /// set. On the first frame the whole set becomes the ignored baseline
    /// and nothing is a candidate yet. Afterwards, the candidates are the
    /// pressed inputs outside the baseline, and the baseline shrinks to the
    /// inputs still pressed, so a released key counts when pressed again.
    pub fn prepare(&mut self, current_input: &Vec<KbgpInput>)
        requires
            old(self).wf(),
        ensures
            final(self).wf(),
            prepare_relation(*old(self), *final(self), current_input@),
    {
        if !self.baseline_taken {
            let ghost c = current_input@;
            let n = current_input.len();
            let mut base: Vec<KbgpInput> = Vec::new();
            let mut i: usize = 0;
            while i < n
                invariant
                    n == c.len(),
                    current_input@ == c,
                    i <= n,
                    base@.no_duplicates(),
                    forall|x: KbgpInput| #[trigger]
                        base@.contains(x) <==> c.take(i as int).contains(x),
                decreases n - i,
            {
                let e = current_input[i];
                proof {
                    assert(c.take(i as int + 1) =~= c.take(i as int).push(c[i as int]));
                    assert forall|x: KbgpInput| #[trigger]
                        c.take(i as int + 1).contains(x) <==> (c.take(i as int).contains(x) || x
                            == c[i as int]) by {
                        lemma_contains_push(c.take(i as int), c[i as int], x);
                    }
                }
                if !contains_input(&base, e) {
                    proof {
                        lemma_no_dups_push(base@, e);
                        assert forall|x: KbgpInput| #[trigger]
                            base@.push(e).contains(x) <==> (base@.contains(x) || x == e) by {
                            lemma_contains_push(base@, e, x);
                        }
                    }
                    base.push(e);
                } else {
                    proof {
                        assert(c.take(i as int).contains(c[i as int]));
                    }
                }
                i = i + 1;
            }
            proof {
                assert(c.take(n as int) =~= c);
            }
            self.ignored_input = base;
            self.baseline_taken = true;
        } else {
            let ghost c = current_input@;
            let ghost ig = self.ignored_input@;
            // Candidates: pressed inputs outside the baseline.
            let n = current_input.len();
            let mut itf: Vec<KbgpInput> = Vec::new();
            let mut i: usize = 0;
            while i < n
                invariant
                    n == c.len(),
                    current_input@ == c,
                    self.ignored_input@ == ig,
                    i <= n,
                    itf@ == filter_not_in(c.take(i as int), ig),
                decreases n - i,
            {
                let e = current_input[i];
                proof {
                    assert(c.take(i as int + 1).drop_last() =~= c.take(i as int));
                    assert(c.take(i as int + 1).last() == c[i as int]);
                }
                if !contains_input(&self.ignored_input, e) {
                    itf.push(e);
                }
                i = i + 1;
            }
            proof {
                assert(c.take(n as int) =~= c);
            }
            // The baseline shrinks to what is still pressed.
            let m = self.ignored_input.len();
            let mut keep: Vec<KbgpInput> = Vec::new();
            let mut j: usize = 0;
            while j < m
                invariant
                    m == ig.len(),
                    self.ignored_input@ == ig,
                    current_input@ == c,
                    j <= m,
                    ig.no_duplicates(),
                    keep@.no_duplicates(),
                    forall|x: KbgpInput| #[trigger]
                        keep@.contains(x) <==> (ig.take(j as int).contains(x) && c.contains(x)),
                decreases m - j,
            {
                let e = self.ignored_input[j];
                proof {
                    assert(ig.take(j as int + 1) =~= ig.take(j as int).push(ig[j as int]));
                    assert forall|x: KbgpInput| #[trigger]
                        ig.take(j as int + 1).contains(x) <==> (ig.take(j as int).contains(x) || x
                            == ig[j as int]) by {
                        lemma_contains_push(ig.take(j as int), ig[j as int], x);
                    }
                    if ig.take(j as int).contains(ig[j as int]) {
                        let w = choose|w: int|
                            0 <= w < j && ig.take(j as int)[w] == ig[j as int];
                        assert(ig[w] == ig[j as int]);
                        assert(false);
                    }
                }
                if contains_input(current_input, e) {
                    proof {
                        lemma_no_dups_push(keep@, e);
                        assert forall|x: KbgpInput| #[trigger]
                            keep@.push(e).contains(x) <==> (keep@.contains(x) || x == e) by {
                            lemma_contains_push(keep@, e, x);
                        }
                    }
                    keep.push(e);
                }
                j = j + 1;
            }
            proof {
                assert(ig.take(m as int) =~= ig);
            }
            self.input_this_frame = itf;
            self.ignored_input = keep;
        }
    }

    /// Fold this frame's candidates into the chord under the session's
    /// policy: each accepted input evicts its opposite pole and joins the
    /// chord unless already present.
    pub fn process_new_input(&mut self)
        requires
            old(self).wf(),
        ensures
            final(self).wf(),
            final(self).received_input@ == capture_from(
                old(self).received_input@,
                old(self).input_this_frame@,
                0,
                old(self).policy.filter,
                old(self).policy.limit_one,
            ),
            final(self).acceptor_id == old(self).acceptor_id,
            final(self).policy == old(self).policy,
            final(self).input_this_frame@ == old(self).input_this_frame@,
            final(self).baseline_taken == old(self).baseline_taken,
            final(self).ignored_input@ == old(self).ignored_input@,
    {
        let ghost itf = self.input_this_frame@;
        let ghost filter = self.policy.filter;
        let ghost limit_one = self.policy.limit_one;
        let n = self.input_this_frame.len();
        let mut i: usize = 0;
        while i < n
            invariant
                n == itf.len(),
                self.input_this_frame@ == itf,
                self.policy == old(self).policy,
                filter == self.policy.filter,
                limit_one == self.policy.limit_one,
                self.acceptor_id == old(self).acceptor_id,
                self.baseline_taken == old(self).baseline_taken,
                self.ignored_input@ == old(self).ignored_input@,
                i <= n,
                capture_from(old(self).received_input@, itf, 0, filter, limit_one) == capture_from(
                    self.received_input@,
                    itf,
                    i as int,
                    filter,
                    limit_one,
                ),
            decreases n - i,
        {
            let inp = self.input_this_frame[i];
            let ghost r0 = self.received_input@;
            let within_limit = !self.policy.limit_one || self.received_input.len() == 0;
            let filter_ok = match self.policy.filter {
                InputFilter::Any => true,
                InputFilter::OfSource(src) => inp.get_source() == src,
                InputFilter::SameSource => self.received_input.len() == 0 || inp.get_source()
                    == self.received_input[0].get_source(),
            };
            if within_limit && filter_ok {
                match inp.opposite_of() {
                    Some(o) => {
                        remove_input(&mut self.received_input, o);
                    },
                    None => {},
                }
                if !contains_input(&self.received_input, inp) {
                    self.received_input.push(inp);
                }
            } else {
                proof {
                    assert(!policy_accepts(r0, inp, filter, limit_one));
                }
            }
            i = i + 1;
        }
        proof {
            lemma_capture_from_wf(
                old(self).received_input@,
                itf,
                0,
                old(self).policy.filter,
                old(self).policy.limit_one,
            );
        }
    }

    /// Whether some candidate pressed this frame is still part of the
    /// chord: completion must wait for its release.
    pub fn candidate_still_held(&self) -> (r: bool)
        ensures
            r == any_overlap(self.input_this_frame@, self.received_input@),
    {
        let n = self.input_this_frame.len();
        let mut i: usize = 0;
        while i < n
            invariant
                n == self.input_this_frame@.len(),
                i <= n,
                forall|j: int| 0 <= j < i ==> !self.received_input@.contains(
                    #[trigger] self.input_this_frame@[j],
                ),
            decreases n - i,
        {
            let e = self.input_this_frame[i];
            if contains_input(&self.received_input, e) {
                proof {
                    assert(self.received_input@.contains(self.input_this_frame@[i as int]));
                }
                return true;
            }
            i = i + 1;
        }
        false
    }

    /// The text describing the chord accumulated so far, for the host to
    /// show while the capture is running.
    pub fn format_current_chord(&self) -> (r: String)
        ensures
            r@ == crate::input::chord_label_from(self.received_input@, 0),
    {
        KbgpInput::format_chord(&self.received_input)
    }

    /// A copy of the chord accumulated so far.
    pub fn received_vec(&self) -> (r: Vec<KbgpInput>)
        ensures
            r@ == self.received_input@,
    {
        let n = self.received_input.len();
        let mut out: Vec<KbgpInput> = Vec::new();
        let mut i: usize = 0;
        while i < n
            invariant
                n == self.received_input@.len(),
                i <= n,
                out@ == self.received_input@.take(i as int),
            decreases n - i,
        {
            proof {
                assert(self.received_input@.take(i as int + 1) =~= self.received_input@.take(
                    i as int,
                ).push(self.received_input@[i as int]));
            }
            out.push(self.received_input[i]);
            i = i + 1;
        }
        proof {
            assert(self.received_input@.take(n as int) =~= self.received_input@);
        }
        out
    }
}

/// The collector that gathers the full currently-pressed input set for one
/// frame of a capture session.
pub struct KbgpPreparePendingInput {
    /// Every input currently pressed, over all enabled sources.
    pub current_input: Vec<KbgpInput>,
}

/// The keyboard keys as inputs.
pub open spec fn keys_as_inputs(keys: Seq<u32>) -> Seq<KbgpInput> {
    keys.map_values(|k: u32| KbgpInput::Keyboard(k))
}

/// The mouse buttons as inputs.
pub open spec fn mouse_buttons_as_inputs(buttons: Seq<u16>) -> Seq<KbgpInput> {
    buttons.map_values(|b: u16| KbgpInput::MouseButton(b))
}

/// One gamepad's buttons as inputs.
pub open spec fn gamepad_buttons_as_inputs(pad: u32, buttons: Seq<u16>) -> Seq<KbgpInput> {
    buttons.map_values(|b: u16| KbgpInput::GamepadButton(pad, b))
}

/// Append `x` unless it is already present.
pub open spec fn push_unique(s: Seq<KbgpInput>, x: KbgpInput) -> Seq<KbgpInput> {
    if s.contains(x) {
        s
    } else {
        s.push(x)
    }
}

/// Fold one gamepad's thresholded axis levels (in thousandths) into the
/// pressed set, from index `i` on: a level above half of the range presses
/// the positive pole, below minus half the negative pole.
pub open spec fn axes_as_inputs_from(
    s: Seq<KbgpInput>,
    pad: u32,
    axes: Seq<(u16, i32)>,
    i: int,
) -> Seq<KbgpInput>
    decreases axes.len() - i,
{
    if i < 0 || i >= axes.len() {
        s
    } else {
        let level = axes[i].1;
        let next = if level > 500 {
            s.push(KbgpInput::GamepadAxisPositive(pad, axes[i].0))
        } else if level < -500 {
            s.push(KbgpInput::GamepadAxisNegative(pad, axes[i].0))
        } else {
            s
        };
        axes_as_inputs_from(next, pad, axes, i + 1)
    }
}

impl KbgpPreparePendingInput {
    /// An empty pressed set.
    pub fn new() -> (r: Self)
        ensures
            r.current_input@ =~= Seq::<KbgpInput>::empty(),
    {
        KbgpPreparePendingInput { current_input: Vec::new() }
    }

    /// Report a single pressed input.
    pub fn accept_input(&mut self, input: KbgpInput)
        ensures
            final(self).current_input@ == old(self).current_input@.push(input),
    {
        self.current_input.push(input);
    }

    /// Report a single pressed input, unless the same input was already
    /// reported this frame.
    pub fn accept_input_unique(&mut self, input: KbgpInput)
        ensures
            final(self).current_input@ == push_unique(old(self).current_input@, input),
    {
        if !contains_input(&self.current_input, input) {
            self.current_input.push(input);
        }
    }

    /// Report several pressed inputs.
    pub fn accept_inputs(&mut self, inputs: &Vec<KbgpInput>)
        ensures
            final(self).current_input@ == old(self).current_input@ + inputs@,
    {
        let n = inputs.len();
        let mut i: usize = 0;
        while i < n
            invariant
                n == inputs@.len(),
                i <= n,
                self.current_input@ == old(self).current_input@ + inputs@.take(i as int),
            decreases n - i,
        {
            proof {
                assert(old(self).current_input@ + inputs@.take(i as int + 1) =~= (old(
                    self,
                ).current_input@ + inputs@.take(i as int)).push(inputs@[i as int]));
            }
            self.current_input.push(inputs[i]);
            i = i + 1;
        }
        proof {
            assert(inputs@.take(n as int) =~= inputs@);
        }
    }

    /// Report every pressed keyboard key.
    pub fn accept_keyboard_input(&mut self, pressed_keys: &Vec<u32>)
        ensures
            final(self).current_input@ == old(self).current_input@ + keys_as_inputs(pressed_keys@),
    {
        let n = pressed_keys.len();
        let mut i: usize = 0;
        while i < n
            invariant
                n == pressed_keys@.len(),
                i <= n,
                self.current_input@ == old(self).current_input@ + keys_as_inputs(
                    pressed_keys@.take(i as int),
                ),
            decreases n - i,
        {
            proof {
                assert(old(self).current_input@ + keys_as_inputs(pressed_keys@.take(i as int + 1))
                    =~= (old(self).current_input@ + keys_as_inputs(
                    pressed_keys@.take(i as int),
                )).push(KbgpInput::Keyboard(pressed_keys@[i as int])));
            }
            self.current_input.push(KbgpInput::Keyboard(pressed_keys[i]));
            i = i + 1;
        }
        proof {
            assert(pressed_keys@.take(n as int) =~= pressed_keys@);
        }
    }

    /// Report every pressed mouse button.
    pub fn accept_mouse_buttons_input(&mut self, pressed_buttons: &Vec<u16>)
        ensures
            final(self).current_input@ == old(self).current_input@ + mouse_buttons_as_inputs(
                pressed_buttons@,
            ),
    {
        let n = pressed_buttons.len();
        let mut i: usize = 0;
        while i < n
            invariant
                n == pressed_buttons@.len(),
                i <= n,
                self.current_input@ == old(self).current_input@ + mouse_buttons_as_inputs(
                    pressed_buttons@.take(i as int),
                ),
            decreases n - i,
        {
            proof {
                assert(old(self).current_input@ + mouse_buttons_as_inputs(
                    pressed_buttons@.take(i as int + 1),
                ) =~= (old(self).current_input@ + mouse_buttons_as_inputs(
                    pressed_buttons@.take(i as int),
                )).push(KbgpInput::MouseButton(pressed_buttons@[i as int])));
            }
            self.current_input.push(KbgpInput::MouseButton(pressed_buttons[i]));
            i = i + 1;
        }
        proof {
            assert(pressed_buttons@.take(n as int) =~= pressed_buttons@);
        }
    }

    /// Report one mouse wheel event, with the scroll deltas in thousandths.
    /// Each enabled direction presses at most one wheel input per frame.
    pub fn accept_mouse_wheel_event(
        &mut self,
        delta_x: i32,
        delta_y: i32,
        vertical: bool,
        horizontal: bool,
    )
        ensures
            final(self).current_input@ == ({
                let s1 = if vertical && delta_y > 0 {
                    push_unique(old(self).current_input@, KbgpInput::MouseWheelUp)
                } else if vertical && delta_y < 0 {
                    push_unique(old(self).current_input@, KbgpInput::MouseWheelDown)
                } else {
                    old(self).current_input@
                };
                if horizontal && delta_x > 0 {
                    push_unique(s1, KbgpInput::MouseWheelRight)
                } else if horizontal && delta_x < 0 {
                    push_unique(s1, KbgpInput::MouseWheelLeft)
                } else {
                    s1
                }
            }),
    {
        if vertical {
            if delta_y > 0 {
                self.accept_input_unique(KbgpInput::MouseWheelUp);
            } else if delta_y < 0 {
                self.accept_input_unique(KbgpInput::MouseWheelDown);
            }
        }
        if horizontal {
            if delta_x > 0 {
                self.accept_input_unique(KbgpInput::MouseWheelRight);
            } else if delta_x < 0 {
                self.accept_input_unique(KbgpInput::MouseWheelLeft);
            }
        }
    }

    /// Report one gamepad's state: its pressed buttons, and its axis levels
    /// in thousandths of the full range, thresholded at half into pole
    /// inputs.
    pub fn accept_gamepad_input(
        &mut self,
        gamepad: u32,
        pressed_buttons: &Vec<u16>,
        axes: &Vec<(u16, i32)>,
    )
        ensures
            final(self).current_input@ == axes_as_inputs_from(
                old(self).current_input@ + gamepad_buttons_as_inputs(gamepad, pressed_buttons@),
                gamepad,
                axes@,
                0,
            ),
    {
        let n = pressed_buttons.len();
        let mut i: usize = 0;
        while i < n
            invariant
                n == pressed_buttons@.len(),
                i <= n,
                self.current_input@ == old(self).current_input@ + gamepad_buttons_as_inputs(
                    gamepad,
                    pressed_buttons@.take(i as int),
                ),
            decreases n - i,
        {
            proof {
                assert(old(self).current_input@ + gamepad_buttons_as_inputs(
                    gamepad,
                    pressed_buttons@.take(i as int + 1),
                ) =~= (old(self).current_input@ + gamepad_buttons_as_inputs(
                    gamepad,
                    pressed_buttons@.take(i as int),
                )).push(KbgpInput::GamepadButton(gamepad, pressed_buttons@[i as int])));
            }
            self.current_input.push(KbgpInput::GamepadButton(gamepad, pressed_buttons[i]));
            i = i + 1;
        }
        proof {
            assert(pressed_buttons@.take(n as int) =~= pressed_buttons@);
        }
        let ghost mid = self.current_input@;
        let m = axes.len();
        let mut j: usize = 0;
        while j < m
            invariant
                m == axes@.len(),
                j <= m,
                axes_as_inputs_from(mid, gamepad, axes@, 0) == axes_as_inputs_from(
                    self.current_input@,
                    gamepad,
                    axes@,
                    j as int,
                ),
            decreases m - j,
        {
            let (axis, level) = axes[j];
            if level > 500 {
                self.current_input.push(KbgpInput::GamepadAxisPositive(gamepad, axis));
            } else if level < -500 {
                self.current_input.push(KbgpInput::GamepadAxisNegative(gamepad, axis));
            }
            j = j + 1;
        }
    }
}

} // verus!
