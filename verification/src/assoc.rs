//! Association sequences with unique keys.
//!
//! The binding tables are small key-to-command maps that are rebuilt rarely
//! and read every frame. They are stored as vectors of pairs whose keys are
//! kept unique; these spec functions and lemmas give them map semantics.

use vstd::prelude::*;

verus! {

/// The value paired with `key` among `s`, scanning for a match.
pub open spec fn pair_find<K, V>(s: Seq<(K, V)>, key: K) -> Option<V>
    decreases s.len(),
{
    if s.len() == 0 {
        None
    } else if s.last().0 == key {
        Some(s.last().1)
    } else {
        pair_find(s.drop_last(), key)
    }
}

/// No two pairs share a key.
pub open spec fn unique_keys<K, V>(s: Seq<(K, V)>) -> bool {
    forall|i: int, j: int| 0 <= i < j < s.len() ==> s[i].0 != s[j].0
}

/// Finding after a push: the pushed pair answers for its own key and
/// nothing else changes.
pub proof fn lemma_pair_find_push<K, V>(s: Seq<(K, V)>, p: (K, V), key: K)
    ensures
        pair_find(s.push(p), key) == (if p.0 == key {
            Some(p.1)
        } else {
            pair_find(s, key)
        }),
{
    assert(s.push(p).drop_last() =~= s);
}

/// What a find answer means in terms of indices.
pub proof fn lemma_pair_find_membership<K, V>(s: Seq<(K, V)>, key: K)
    ensures
        match pair_find(s, key) {
            Some(v) => exists|i: int| 0 <= i < s.len() && s[i] == (key, v),
            None => forall|i: int| 0 <= i < s.len() ==> s[i].0 != key,
        },
    decreases s.len(),
{
    if s.len() == 0 {
    } else if s.last().0 == key {
        assert(s[s.len() - 1] == s.last());
    } else {
        lemma_pair_find_membership(s.drop_last(), key);
        match pair_find(s.drop_last(), key) {
            Some(v) => {
                let i = choose|i: int| 0 <= i < s.drop_last().len() && s.drop_last()[i] == (key, v);
                assert(s.drop_last()[i] == s[i]);
            },
            None => {
                assert forall|i: int| 0 <= i < s.len() implies s[i].0 != key by {
                    if i < s.len() - 1 {
                        assert(s.drop_last()[i] == s[i]);
                    } else {
                        assert(s[i] == s.last());
                    }
                }
            },
        }
    }
}

/// Replacing the pair at an index by one with the same key: find answers
/// the new value for that key and is unchanged elsewhere, and keys stay
/// unique.
pub proof fn lemma_pair_find_update<K, V>(s: Seq<(K, V)>, i: int, p: (K, V), key: K)
    requires
        unique_keys(s),
        0 <= i < s.len(),
        s[i].0 == p.0,
    ensures
        pair_find(s.update(i, p), key) == (if key == p.0 {
            Some(p.1)
        } else {
            pair_find(s, key)
        }),
        unique_keys(s.update(i, p)),
    decreases s.len(),
{
    let t = s.update(i, p);
    if i == s.len() - 1 {
        assert(t.last() == p);
        assert(t.drop_last() =~= s.drop_last());
    } else {
        assert(t.last() == s.last());
        assert(t.drop_last() =~= s.drop_last().update(i, p));
        lemma_pair_find_update(s.drop_last(), i, p, key);
    }
}

} // verus!
