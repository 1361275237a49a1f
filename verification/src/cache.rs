//! The bounded response cache: keys map to bytes, the oldest key leaves
//! first, and a periodic sweep empties it.
//!
//! A cache is modelled by the sequence of its entries, oldest first, in which
//! no key occurs twice. The program that shares one cache between its request
//! handlers keeps it behind a single lock.

use vstd::prelude::*;
use crate::keyed::{cached, distinct_keys, holds, lemma_position, position};
use crate::text::copy_bytes;

verus! {

/// The capacity of a cache made with [`Cache::new`].
pub const DEFAULT_CAPACITY: usize = 100;

/// One cached response: the key it is stored under and the bytes.
#[derive(Clone, Debug, PartialEq, Eq)]
pub struct CacheEntry {
    pub key: String,
    pub value: Vec<u8>,
}

impl View for CacheEntry {
    type V = (Seq<char>, Seq<u8>);

    open spec fn view(&self) -> (Seq<char>, Seq<u8>) {
        (self.key@, self.value@)
    }
}

/// The entries after `value` is stored under `key` in a cache of the given
/// capacity. A key already present keeps its place in the queue and gets the
/// new bytes. A new key joins at the back; where the cache is full, the
/// oldest entry leaves first.
pub open spec fn after_put(
    entries: Seq<(Seq<char>, Seq<u8>)>,
    capacity: nat,
    key: Seq<char>,
    value: Seq<u8>,
) -> Seq<(Seq<char>, Seq<u8>)> {
    if holds(entries, key) {
        entries.update(position(entries, key), (key, value))
    } else if entries.len() < capacity {
        entries.push((key, value))
    } else {
        entries.drop_first().push((key, value))
    }
}

/// The entries after each of `items` is stored in turn, first to last.
pub open spec fn after_puts(
    entries: Seq<(Seq<char>, Seq<u8>)>,
    capacity: nat,
    items: Seq<(Seq<char>, Seq<u8>)>,
) -> Seq<(Seq<char>, Seq<u8>)>
    decreases items.len(),
{
    if items.len() == 0 {
        entries
    } else {
        after_put(
            after_puts(entries, capacity, items.drop_last()),
            capacity,
            items.last().0,
            items.last().1,
        )
    }
}

/// The bytes of an optional buffer.
pub open spec fn found(bytes: Option<Vec<u8>>) -> Option<Seq<u8>> {
    match bytes {
        Some(b) => Some(b@),
        None => None,
    }
}

/// A bounded store of response bodies with first-in, first-out eviction.
pub struct Cache {
    entries: Vec<CacheEntry>,
    capacity: usize,
}

impl View for Cache {
    type V = Seq<(Seq<char>, Seq<u8>)>;

    closed spec fn view(&self) -> Seq<(Seq<char>, Seq<u8>)> {
        self.entries@.map_values(|e: CacheEntry| e@)
    }
}

impl Cache {
    /// The most entries the cache holds at once.
    pub closed spec fn limit(&self) -> nat {
        self.capacity as nat
    }

    /// The invariant: at least one entry fits, no more than `limit()` are
    /// held, and no key is held twice.
    pub open spec fn wf(&self) -> bool {
        &&& self.limit() >= 1
        &&& self@.len() <= self.limit()
        &&& distinct_keys(self@)
    }

    /// An empty cache of the default capacity.
    pub fn new() -> (cache: Cache)
        ensures
            cache.wf(),
            cache@ == Seq::<(Seq<char>, Seq<u8>)>::empty(),
            cache.limit() == DEFAULT_CAPACITY,
    {
        let cache = Cache { entries: Vec::new(), capacity: DEFAULT_CAPACITY };
        assert(cache@ =~= Seq::<(Seq<char>, Seq<u8>)>::empty());
        cache
    }

    /// An empty cache that holds up to `capacity` entries; none where
    /// `capacity` is zero.
    pub fn with_capacity(capacity: usize) -> (made: Option<Cache>)
        ensures
            made is Some <==> capacity >= 1,
            made is Some ==> made->0.wf() && made->0@ == Seq::<(Seq<char>, Seq<u8>)>::empty()
                && made->0.limit() == capacity,
    {
        if capacity == 0 {
            return None;
        }
        let cache = Cache { entries: Vec::new(), capacity };
        assert(cache@ =~= Seq::<(Seq<char>, Seq<u8>)>::empty());
        Some(cache)
    }

    /// The most entries the cache holds at once.
    pub fn capacity(&self) -> (capacity: usize)
        ensures
            capacity == self.limit(),
    {
        self.capacity
    }

    /// How many entries are held.
    pub fn len(&self) -> (len: usize)
        ensures
            len == self@.len(),
    {
        self.entries.len()
    }

    /// Whether nothing is held.
    pub fn is_empty(&self) -> (empty: bool)
        ensures
            empty == (self@.len() == 0),
    {
        self.entries.len() == 0
    }

    /// The place of `key` in the queue.
    fn find(&self, key: &String) -> (place: Option<usize>)
        requires
            self.wf(),
        ensures
            place is Some <==> holds(self@, key@),
            place is Some ==> place->0 < self@.len() && place->0 == position(self@, key@)
                && self@[place->0 as int].0 == key@,
    {
        let mut i: usize = 0;
        while i < self.entries.len()
            invariant
                self.wf(),
                0 <= i <= self.entries@.len(),
                self@.len() == self.entries@.len(),
                forall|j: int| 0 <= j < i ==> (#[trigger] self@[j]).0 != key@,
            decreases self.entries@.len() - i,
        {
            if self.entries[i].key == *key {
                proof {
                    assert(self@[i as int].0 == key@);
                    lemma_position(self@, key@, i as int);
                }
                return Some(i);
            }
            i += 1;
        }
        None
    }

    /// Looks `key` up: the bytes last stored under it, or a miss.
    pub fn get(&self, key: &String) -> (hit: Option<Vec<u8>>)
        requires
            self.wf(),
        ensures
            found(hit) == cached(self@, key@),
    {
        match self.find(key) {
            Some(i) => Some(copy_bytes(&self.entries[i].value)),
            None => None,
        }
    }

    /// Stores `value` under `key`: see [`after_put`].
    pub fn put(&mut self, key: String, value: Vec<u8>)
        requires
            old(self).wf(),
        ensures
            final(self).wf(),
            final(self).limit() == old(self).limit(),
            final(self)@ == after_put(old(self)@, old(self).limit(), key@, value@),
    {
        let ghost before = self@;
        let ghost k = key@;
        let ghost v = value@;
        let place = self.find(&key);
        match place {
            Some(i) => {
                self.entries.set(i, CacheEntry { key, value });
                assert(self@ =~= before.update(i as int, (k, v)));
            },
            None => {
                if self.entries.len() >= self.capacity {
                    let _ = self.entries.remove(0);
                    assert(self@ =~= before.drop_first());
                }
                let ghost middle = self@;
                self.entries.push(CacheEntry { key, value });
                assert(self@ =~= middle.push((k, v)));
            },
        }
        proof {
            lemma_put_keeps_order(before, self.limit(), k, v);
        }
    }

    /// Empties the cache: afterwards every key misses.
    pub fn clear(&mut self)
        ensures
            final(self).limit() == old(self).limit(),
            final(self)@ == Seq::<(Seq<char>, Seq<u8>)>::empty(),
            old(self).wf() ==> final(self).wf(),
            forall|key: Seq<char>| cached(final(self)@, key) is None,
    {
        self.entries.clear();
        assert(self@ =~= Seq::<(Seq<char>, Seq<u8>)>::empty());
    }
}

/// Storing an entry keeps the keys distinct and the cache within its
/// capacity.
pub proof fn lemma_put_keeps_order(
    entries: Seq<(Seq<char>, Seq<u8>)>,
    capacity: nat,
    key: Seq<char>,
    value: Seq<u8>,
)
    requires
        capacity >= 1,
        entries.len() <= capacity,
        distinct_keys(entries),
    ensures
        distinct_keys(after_put(entries, capacity, key, value)),
        after_put(entries, capacity, key, value).len() <= capacity,
        after_put(entries, capacity, key, value).len() >= 1,
{
    let after = after_put(entries, capacity, key, value);
    if holds(entries, key) {
        let p = position(entries, key);
        assert forall|i: int, j: int| 0 <= i < j < after.len() implies (#[trigger] after[i]).0
            != (#[trigger] after[j]).0 by {
            assert(entries[i].0 != entries[j].0);
            if i == p {
                assert(entries[p].0 == key);
            }
            if j == p {
                assert(entries[p].0 == key);
            }
        }
    } else {
        let kept = if entries.len() < capacity {
            entries
        } else {
            entries.drop_first()
        };
        let d: int = entries.len() - kept.len();
        assert forall|i: int, j: int| 0 <= i < j < after.len() implies (#[trigger] after[i]).0
            != (#[trigger] after[j]).0 by {
            assert(entries[i + d].0 == kept[i].0);
            if j < kept.len() {
                assert(entries[j + d].0 == kept[j].0);
                assert(entries[i + d].0 != entries[j + d].0);
            }
        }
    }
}

/// A lookup straight after a store finds what was stored.
pub proof fn law_put_then_get(
    entries: Seq<(Seq<char>, Seq<u8>)>,
    capacity: nat,
    key: Seq<char>,
    value: Seq<u8>,
)
    requires
        capacity >= 1,
        entries.len() <= capacity,
        distinct_keys(entries),
    ensures
        cached(after_put(entries, capacity, key, value), key) == Some(value),
{
    let after = after_put(entries, capacity, key, value);
    lemma_put_keeps_order(entries, capacity, key, value);
    if holds(entries, key) {
        let p = position(entries, key);
        lemma_position(after, key, p);
    } else {
        lemma_position(after, key, after.len() - 1);
    }
}

/// A store under one key leaves every other key as it was, but for the
/// oldest key where a full cache made room.
pub proof fn law_put_keeps_others(
    entries: Seq<(Seq<char>, Seq<u8>)>,
    capacity: nat,
    key: Seq<char>,
    value: Seq<u8>,
    other: Seq<char>,
)
    requires
        capacity >= 1,
        entries.len() <= capacity,
        distinct_keys(entries),
        other != key,
        holds(entries, key) || entries.len() < capacity || other != entries[0].0,
    ensures
        cached(after_put(entries, capacity, key, value), other) == cached(entries, other),
{
    let after = after_put(entries, capacity, key, value);
    lemma_put_keeps_order(entries, capacity, key, value);
    let d: int = if !holds(entries, key) && entries.len() >= capacity {
        1
    } else {
        0
    };
    if holds(entries, other) {
        let q = position(entries, other);
        assert(entries[q].0 == other);
        if holds(entries, key) {
            assert(entries[position(entries, key)].0 == key);
        }
        assert(after[q - d] == entries[q]);
        lemma_position(after, other, q - d);
    } else {
        if holds(after, other) {
            let q = position(after, other);
            assert(after[q].0 == other);
            if holds(entries, key) {
                assert(entries[q].0 == other);
            } else {
                assert(entries[q + d].0 == other);
            }
        }
    }
}

/// The newest `count` of `entries`, or all of them where there are fewer.
pub open spec fn newest(entries: Seq<(Seq<char>, Seq<u8>)>, count: nat) -> Seq<
    (Seq<char>, Seq<u8>),
> {
    if entries.len() <= count {
        entries
    } else {
        entries.subrange(entries.len() - count, entries.len() as int)
    }
}

/// Stored one after another, entries whose keys differ from each other and
/// from those already held leave the cache holding the newest of all, as
/// many as fit, in their order.
pub proof fn lemma_fill(
    entries: Seq<(Seq<char>, Seq<u8>)>,
    capacity: nat,
    items: Seq<(Seq<char>, Seq<u8>)>,
)
    requires
        capacity >= 1,
        entries.len() <= capacity,
        distinct_keys(entries + items),
    ensures
        after_puts(entries, capacity, items) == newest(entries + items, capacity),
    decreases items.len(),
{
    let all = entries + items;
    if items.len() == 0 {
        assert(all =~= entries);
    } else {
        let front = items.drop_last();
        let last = items.last();
        let earlier = entries + front;
        assert(earlier =~= all.drop_last());
        assert(distinct_keys(earlier)) by {
            assert forall|i: int, j: int| 0 <= i < j < earlier.len() implies (
            #[trigger] earlier[i]).0 != (#[trigger] earlier[j]).0 by {
                assert(all[i].0 != all[j].0);
            }
        }
        lemma_fill(entries, capacity, front);
        let held = after_puts(entries, capacity, front);
        let skip: int = if earlier.len() <= capacity {
            0
        } else {
            earlier.len() - capacity
        };
        assert(held =~= earlier.subrange(skip, earlier.len() as int));
        assert(all[all.len() - 1] == last);
        if holds(held, last.0) {
            let p = position(held, last.0);
            assert(held[p].0 == last.0);
            assert(all[p + skip].0 != all[all.len() - 1].0);
        }
        let after = after_put(held, capacity, last.0, last.1);
        assert(after =~= newest(all, capacity));
    }
}

/// First in, first out: after one more store than the cache has room for,
/// under keys that differ from each other and from those held before, the
/// first of these keys misses and every later one still gives what was
/// stored under it.
pub proof fn law_fifo_eviction(
    entries: Seq<(Seq<char>, Seq<u8>)>,
    capacity: nat,
    items: Seq<(Seq<char>, Seq<u8>)>,
)
    requires
        capacity >= 1,
        entries.len() <= capacity,
        distinct_keys(entries + items),
        items.len() == capacity + 1,
    ensures
        cached(after_puts(entries, capacity, items), items[0].0) is None,
        forall|j: int|
            1 <= j < items.len() ==> cached(
                after_puts(entries, capacity, items),
                (#[trigger] items[j]).0,
            ) == Some(items[j].1),
{
    lemma_fill(entries, capacity, items);
    let all = entries + items;
    let held = after_puts(entries, capacity, items);
    assert(held =~= items.subrange(1, items.len() as int));
    assert(distinct_keys(items)) by {
        assert forall|i: int, j: int| 0 <= i < j < items.len() implies (#[trigger] items[i]).0 != (
        #[trigger] items[j]).0 by {
            assert(all[entries.len() + i].0 != all[entries.len() + j].0);
        }
    }
    assert(distinct_keys(held)) by {
        assert forall|i: int, j: int| 0 <= i < j < held.len() implies (#[trigger] held[i]).0 != (
        #[trigger] held[j]).0 by {
            assert(items[i + 1].0 != items[j + 1].0);
        }
    }
    if holds(held, items[0].0) {
        let p = position(held, items[0].0);
        assert(held[p].0 == items[0].0);
        assert(items[0].0 != items[p + 1].0);
    }
    assert forall|j: int| 1 <= j < items.len() implies cached(held, (#[trigger] items[j]).0)
        == Some(items[j].1) by {
        assert(held[j - 1] == items[j]);
        lemma_position(held, items[j].0, j - 1);
    }
}

} // verus!
