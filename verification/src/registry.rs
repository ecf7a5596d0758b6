//! Per-frame bookkeeping of the nodes that are currently presented.
//!
//! The UI-building pass registers every interactive element it lays out,
//! together with its screen rectangle, each frame. An entry that is not
//! re-registered promptly is evicted, so rectangles of nodes that are no
//! longer drawn cannot influence navigation. Because the host may run its
//! update systems out of order relative to its draw order, an entry survives
//! until the next frame boundary after the last frame it was seen in.

use vstd::prelude::*;

verus! {

/// An axis-aligned rectangle in integer logical pixel space.
#[derive(Clone, Copy, PartialEq, Eq, Structural, Debug)]
pub struct Rect {
    pub min_x: i32,
    pub min_y: i32,
    pub max_x: i32,
    pub max_y: i32,
}

impl Rect {
    /// A rectangle's corners are ordered.
    pub open spec fn wf(self) -> bool {
        self.min_x <= self.max_x && self.min_y <= self.max_y
    }

    /// Whether the point lies inside the rectangle, edges included.
    pub open spec fn contains(self, x: i32, y: i32) -> bool {
        self.min_x <= x <= self.max_x && self.min_y <= y <= self.max_y
    }

    /// Build a rectangle from its two corners.
    pub fn new(min_x: i32, min_y: i32, max_x: i32, max_y: i32) -> (r: Rect)
        requires
            min_x <= max_x,
            min_y <= max_y,
        ensures
            r == (Rect { min_x, min_y, max_x, max_y }),
            r.wf(),
    {
        Rect { min_x, min_y, max_x, max_y }
    }
}

/// One registered node: its stable identifier, its rectangle this frame, and
/// whether it has been seen since the last frame boundary.
#[derive(Clone, Copy, PartialEq, Eq, Structural, Debug)]
pub struct NodeEntry {
    pub id: u64,
    pub rect: Rect,
    pub seen: bool,
}

/// The entry for `id` among `s`, scanning for a match.
pub open spec fn reg_find(s: Seq<NodeEntry>, id: u64) -> Option<NodeEntry>
    decreases s.len(),
{
    if s.len() == 0 {
        None
    } else if s.last().id == id {
        Some(s.last())
    } else {
        reg_find(s.drop_last(), id)
    }
}

/// No two entries share an identifier.
pub open spec fn unique_ids(s: Seq<NodeEntry>) -> bool {
    forall|i: int, j: int| 0 <= i < j < s.len() ==> s[i].id != s[j].id
}

/// Finding after a push: the pushed entry answers for its own identifier and
/// nothing else changes.
pub proof fn lemma_reg_find_push(s: Seq<NodeEntry>, e: NodeEntry, id: u64)
    ensures
        reg_find(s.push(e), id) == (if e.id == id {
            Some(e)
        } else {
            reg_find(s, id)
        }),
{
    assert(s.push(e).drop_last() =~= s);
}

/// What a find answer means in terms of indices: a hit is an entry of the
/// sequence with that identifier, a miss means no entry has it.
pub proof fn lemma_reg_find_membership(s: Seq<NodeEntry>, id: u64)
    ensures
        match reg_find(s, id) {
            Some(e) => e.id == id && exists|i: int| 0 <= i < s.len() && s[i] == e,
            None => forall|i: int| 0 <= i < s.len() ==> s[i].id != id,
        },
    decreases s.len(),
{
    if s.len() == 0 {
    } else if s.last().id == id {
        assert(s[s.len() - 1] == s.last());
    } else {
        lemma_reg_find_membership(s.drop_last(), id);
        match reg_find(s.drop_last(), id) {
            Some(e) => {
                let i = choose|i: int| 0 <= i < s.drop_last().len() && s.drop_last()[i] == e;
                assert(s.drop_last()[i] == s[i]);
            },
            None => {
                assert forall|i: int| 0 <= i < s.len() implies s[i].id != id by {
                    if i < s.len() - 1 {
                        assert(s.drop_last()[i] == s[i]);
                    } else {
                        assert(s[i] == s.last());
                    }
                }
            },
        }
    }
}

/// Replacing the entry at an index by one with the same identifier: find
/// answers the new entry for that identifier and is unchanged elsewhere, and
/// identifiers stay unique.
pub proof fn lemma_reg_find_update(s: Seq<NodeEntry>, i: int, e: NodeEntry, id: u64)
    requires
        unique_ids(s),
        0 <= i < s.len(),
        s[i].id == e.id,
    ensures
        reg_find(s.update(i, e), id) == (if id == e.id {
            Some(e)
        } else {
            reg_find(s, id)
        }),
        unique_ids(s.update(i, e)),
    decreases s.len(),
{
    let t = s.update(i, e);
    if i == s.len() - 1 {
        assert(t.last() == e);
        assert(t.drop_last() =~= s.drop_last());
    } else {
        assert(t.last() == s.last());
        assert(t.drop_last() =~= s.drop_last().update(i, e));
        lemma_reg_find_update(s.drop_last(), i, e, id);
    }
}

/// What one frame boundary leaves of a lookup answer: a seen entry
/// survives with its mark cleared, anything else is gone.
pub open spec fn swept(e: Option<NodeEntry>) -> Option<NodeEntry> {
    match e {
        Some(e) => if e.seen {
            Some(NodeEntry { seen: false, ..e })
        } else {
            None
        },
        None => None,
    }
}

/// What one frame boundary leaves of the whole registry sequence: the
/// seen entries in their order, marks cleared.
pub open spec fn sweep_seq(s: Seq<NodeEntry>) -> Seq<NodeEntry>
    decreases s.len(),
{
    if s.len() == 0 {
        Seq::empty()
    } else {
        let rest = sweep_seq(s.drop_last());
        if s.last().seen {
            rest.push(NodeEntry { seen: false, ..s.last() })
        } else {
            rest
        }
    }
}

/// The node at index `i` or later whose rectangle contains the point, if
/// any; the earliest wins.
pub open spec fn node_at_from(s: Seq<NodeEntry>, i: int, x: i32, y: i32) -> Option<u64>
    decreases s.len() - i,
{
    if i < 0 || i >= s.len() {
        None
    } else if s[i].rect.contains(x, y) {
        Some(s[i].id)
    } else {
        node_at_from(s, i + 1, x, y)
    }
}

/// The registry of currently presented nodes.
pub struct NodeRegistry {
    entries: Vec<NodeEntry>,
}

impl View for NodeRegistry {
    type V = Seq<NodeEntry>;

    closed spec fn view(&self) -> Seq<NodeEntry> {
        self.entries@
    }
}

impl NodeRegistry {
    /// The registry holds at most one entry per node identifier.
    pub open spec fn wf(self) -> bool {
        unique_ids(self@)
    }

    /// The entry registered for `id`, if any.
    pub open spec fn lookup(self, id: u64) -> Option<NodeEntry> {
        reg_find(self@, id)
    }

    /// Build an empty registry.
    pub fn new() -> (r: NodeRegistry)
        ensures
            r@ =~= Seq::<NodeEntry>::empty(),
            r.wf(),
    {
        NodeRegistry { entries: Vec::new() }
    }

    /// How many nodes are registered.
    pub fn len(&self) -> (r: usize)
        ensures
            r == self@.len(),
    {
        self.entries.len()
    }

    /// Whether no node is registered.
    pub fn is_empty(&self) -> (r: bool)
        ensures
            r == (self@.len() == 0),
    {
        self.entries.len() == 0
    }

    /// Read the entry at an index.
    pub fn entry_at(&self, i: usize) -> (r: NodeEntry)
        requires
            i < self@.len(),
        ensures
            r == self@[i as int],
    {
        self.entries[i]
    }

    /// Look up the entry registered for `id`.
    pub fn find(&self, id: u64) -> (r: Option<NodeEntry>)
        ensures
            r == self.lookup(id),
    {
        let mut i: usize = self.entries.len();
        proof {
            assert(self.entries@.take(i as int) =~= self.entries@);
        }
        while i > 0
            invariant
                i <= self.entries@.len(),
                reg_find(self.entries@, id) == reg_find(self.entries@.take(i as int), id),
            decreases i,
        {
            i = i - 1;
            let e = self.entries[i];
            proof {
                assert(self.entries@.take(i as int + 1).last() == self.entries@[i as int]);
                assert(self.entries@.take(i as int + 1).drop_last() =~= self.entries@.take(
                    i as int,
                ));
            }
            if e.id == id {
                return Some(e);
            }
        }
        proof {
            assert(self.entries@.take(0).len() == 0);
        }
        None
    }

    /// Register a node for the current frame: record its rectangle and mark
    /// it live, overwriting any entry it already had. Nothing else changes.
    pub fn register(&mut self, id: u64, rect: Rect)
        requires
            old(self).wf(),
        ensures
            final(self).wf(),
            final(self).lookup(id) == Some(NodeEntry { id, rect, seen: true }),
            forall|k: u64| k != id ==> final(self).lookup(k) == old(self).lookup(k),
            final(self)@.len() <= old(self)@.len() + 1,
            match old(self).lookup(id) {
                Some(e0) => exists|i: int|
                    0 <= i < old(self)@.len() && old(self)@[i] == e0 && final(self)@ == old(
                        self,
                    )@.update(i, NodeEntry { id, rect, seen: true }),
                None => final(self)@ == old(self)@.push(NodeEntry { id, rect, seen: true }),
            },
    {
        let n = self.entries.len();
        let mut i: usize = 0;
        while i < n
            invariant
                n == self.entries@.len(),
                i <= n,
                forall|j: int| 0 <= j < i ==> self.entries@[j].id != id,
                *self == *old(self),
                old(self).wf(),
            decreases n - i,
        {
            if self.entries[i].id == id {
                let entry = NodeEntry { id, rect, seen: true };
                proof {
                    lemma_reg_find_update(self.entries@, i as int, entry, id);
                }
                // The other identifiers keep their answers.
                assert(forall|k: u64| k != id ==> reg_find(
                    self.entries@.update(i as int, entry),
                    k,
                ) == reg_find(self.entries@, k)) by {
                    assert forall|k: u64| k != id implies reg_find(
                        self.entries@.update(i as int, entry),
                        k,
                    ) == reg_find(self.entries@, k) by {
                        lemma_reg_find_update(self.entries@, i as int, entry, k);
                    }
                }
                proof {
                    // The entry at this index is the one the lookup answers.
                    lemma_reg_find_membership(self.entries@, id);
                    let w = choose|w: int|
                        0 <= w < self.entries@.len() && self.entries@[w]
                            == reg_find(self.entries@, id)->0;
                    assert(self.entries@[w].id == self.entries@[i as int].id);
                    assert(w == i as int);
                }
                self.entries.set(i, entry);
                return ;
            }
            i = i + 1;
        }
        let entry = NodeEntry { id, rect, seen: true };
        proof {
            lemma_reg_find_membership(self.entries@, id);
            assert forall|k: u64| k != id implies reg_find(self.entries@.push(entry), k)
                == reg_find(self.entries@, k) by {
                lemma_reg_find_push(self.entries@, entry, k);
            }
            lemma_reg_find_push(self.entries@, entry, id);
        }
        self.entries.push(entry);
    }

    /// A frame boundary: evict every entry that was not seen since the last
    /// boundary, and clear the liveness mark on the survivors.
    pub fn begin_frame(&mut self)
        requires
            old(self).wf(),
        ensures
            final(self).wf(),
            final(self)@ == sweep_seq(old(self)@),
            forall|k: u64| #[trigger] final(self).lookup(k) == swept(old(self).lookup(k)),
            final(self)@.len() <= old(self)@.len(),
    {
        let ghost s = self.entries@;
        let n = self.entries.len();
        let mut kept: Vec<NodeEntry> = Vec::new();
        let mut i: usize = 0;
        while i < n
            invariant
                n == s.len(),
                i <= n,
                self.entries@ == s,
                unique_ids(s),
                unique_ids(kept@),
                kept@.len() <= i,
                kept@ == sweep_seq(s.take(i as int)),
                forall|k: u64| #[trigger] reg_find(kept@, k) == match reg_find(s.take(i as int), k) {
                    Some(e) => if e.seen {
                        Some(NodeEntry { seen: false, ..e })
                    } else {
                        None::<NodeEntry>
                    },
                    None => None::<NodeEntry>,
                },
            decreases n - i,
        {
            let e = self.entries[i];
            proof {
                assert(s.take(i as int + 1) =~= s.take(i as int).push(s[i as int]));
                assert(s.take(i as int + 1).drop_last() =~= s.take(i as int));
                assert(s.take(i as int + 1).last() == s[i as int]);
                assert forall|k: u64| #[trigger] reg_find(s.take(i as int + 1), k) == (if e.id == k {
                    Some(e)
                } else {
                    reg_find(s.take(i as int), k)
                }) by {
                    lemma_reg_find_push(s.take(i as int), s[i as int], k);
                }
                // `e.id` is fresh in the processed prefix, so it is fresh in
                // `kept` as well.
                lemma_reg_find_membership(s.take(i as int), e.id);
                if reg_find(s.take(i as int), e.id) is Some {
                    let w = choose|w: int|
                        0 <= w < s.take(i as int).len() && s.take(i as int)[w].id == e.id;
                    assert(s[w].id == s[i as int].id);
                    assert(false);
                }
                lemma_reg_find_membership(kept@, e.id);
            }
            if e.seen {
                let cleared = NodeEntry { seen: false, ..e };
                proof {
                    assert forall|k: u64| #[trigger] reg_find(kept@.push(cleared), k) == (if e.id
                        == k {
                        Some(cleared)
                    } else {
                        reg_find(kept@, k)
                    }) by {
                        lemma_reg_find_push(kept@, cleared, k);
                    }
                }
                kept.push(cleared);
            }
            i = i + 1;
        }
        proof {
            assert(s.take(n as int) =~= s);
        }
        self.entries = kept;
    }

    /// The node, if any, whose rectangle contains the point; of several
    /// overlapping nodes the earliest registered wins.
    pub fn node_at_pos(&self, x: i32, y: i32) -> (r: Option<u64>)
        ensures
            r == node_at_from(self@, 0, x, y),
    {
        let n = self.entries.len();
        let mut i: usize = 0;
        while i < n
            invariant
                n == self@.len(),
                i <= n,
                node_at_from(self@, 0, x, y) == node_at_from(self@, i as int, x, y),
            decreases n - i,
        {
            let e = self.entries[i];
            if e.rect.min_x <= x && x <= e.rect.max_x && e.rect.min_y <= y && y <= e.rect.max_y {
                proof {
                    assert(self@[i as int].rect.contains(x, y));
                }
                return Some(e.id);
            }
            i = i + 1;
        }
        None
    }
}

} // verus!
