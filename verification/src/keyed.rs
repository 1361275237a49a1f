//! Lookup by name in a sequence of named values: the model shared by the
//! route table and the response cache.

use vstd::prelude::*;

verus! {

/// Some entry of `entries` has the key `key`.
pub open spec fn holds<V>(entries: Seq<(Seq<char>, V)>, key: Seq<char>) -> bool {
    exists|i: int| 0 <= i < entries.len() && (#[trigger] entries[i]).0 == key
}

/// The place of an entry with the key `key`, where there is one.
pub open spec fn position<V>(entries: Seq<(Seq<char>, V)>, key: Seq<char>) -> int {
    choose|i: int| 0 <= i < entries.len() && (#[trigger] entries[i]).0 == key
}

/// What a lookup of `key` finds: the value stored under it, or nothing.
pub open spec fn cached<V>(entries: Seq<(Seq<char>, V)>, key: Seq<char>) -> Option<V> {
    if holds(entries, key) {
        Some(entries[position(entries, key)].1)
    } else {
        None
    }
}

/// No key occurs twice.
pub open spec fn distinct_keys<V>(entries: Seq<(Seq<char>, V)>) -> bool {
    forall|i: int, j: int|
        0 <= i < j < entries.len() ==> (#[trigger] entries[i]).0 != (#[trigger] entries[j]).0
}

/// Among distinct keys, an entry with the key sits at one place only.
pub proof fn lemma_position<V>(entries: Seq<(Seq<char>, V)>, key: Seq<char>, i: int)
    requires
        distinct_keys(entries),
        0 <= i < entries.len(),
        entries[i].0 == key,
    ensures
        holds(entries, key),
        position(entries, key) == i,
        cached(entries, key) == Some(entries[i].1),
{
    let p = position(entries, key);
    assert(0 <= p < entries.len() && entries[p].0 == key);
    if p < i {
        assert(entries[p].0 != entries[i].0);
    } else if i < p {
        assert(entries[i].0 != entries[p].0);
    }
}

} // verus!
