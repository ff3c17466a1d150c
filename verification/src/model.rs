use crate::expiry_index::{filed, groups_nonempty, is_earliest, unfiled, unfiled_last};
use crate::keys::{first_position, first_position_is_unique, is_first_position, without_first};
use crate::time::expiry_instant;
use vstd::prelude::*;

verus! {

/// What the cache holds for one key: the value and the instant at which it expires.
pub struct Entry<Val> {
    pub value: Val,
    pub expiry: int,
}

/// The state of a cache, as the contracts see it.
#[verifier::reject_recursive_types(Key)]
pub struct CacheState<Key, Val> {
    /// The value map: one entry for each key that the cache holds.
    pub entries: Map<Key, Entry<Val>>,
    /// The expiry index: the keys grouped by expiry instant, each group in the order in
    /// which its keys were stored.
    pub groups: Map<int, Seq<Key>>,
    /// The number of entries beyond which a new key evicts another; 0 for no bound.
    pub capacity: nat,
}

impl<Key, Val> CacheState<Key, Val> {
    /// A cache without entries.
    pub open spec fn empty(capacity: nat) -> Self {
        CacheState { entries: Map::empty(), groups: Map::empty(), capacity }
    }

    /// The index files each key of the value map under the expiry instant of its entry.
    pub open spec fn files_every_entry(self) -> bool {
        forall|key: Key| #[trigger]
            self.entries.contains_key(key) ==> self.groups.contains_key(self.entries[key].expiry)
                && self.groups[self.entries[key].expiry].contains(key)
    }

    /// The index files nothing but the keys of the value map, each under the expiry instant
    /// of its entry.
    pub open spec fn files_only_entries(self) -> bool {
        forall|instant: int, key: Key|
            self.groups.contains_key(instant) && #[trigger] self.groups[instant].contains(key)
                ==> self.entries.contains_key(key) && self.entries[key].expiry == instant
    }

    /// The invariant of the cache: value map and index agree, the index files each key
    /// once and has no empty group, and a bounded cache is within its bound.
    pub open spec fn consistent(self) -> bool {
        &&& self.entries.dom().finite()
        &&& self.groups.dom().finite()
        &&& groups_nonempty(self.groups)
        &&& forall|instant: int|
            self.groups.contains_key(instant) ==> (#[trigger] self.groups[instant]).no_duplicates()
        &&& self.files_every_entry()
        &&& self.files_only_entries()
        &&& self.capacity > 0 ==> self.entries.len() <= self.capacity
    }

    /// The number of entries.
    pub open spec fn len(self) -> nat {
        self.entries.len()
    }

    /// The value stored for `key`, whether or not it has expired.
    pub open spec fn value_of(self, key: Key) -> Option<Val> {
        if self.entries.contains_key(key) {
            Some(self.entries[key].value)
        } else {
            None
        }
    }

    /// The earliest expiry instant of any entry; arbitrary for a cache without entries.
    pub open spec fn earliest(self) -> int {
        choose|instant: int| is_earliest(self.groups, instant)
    }

    /// The key that is evicted next: of the entries that expire earliest, the one stored
    /// last.
    pub open spec fn victim(self) -> Key {
        self.groups[self.earliest()].last()
    }

    /// Some entry is due at `now`.
    pub open spec fn has_expired(self, now: int) -> bool {
        exists|instant: int| self.groups.contains_key(instant) && instant <= now
    }

    /// The cache without the entry of `key`.
    pub open spec fn without(self, key: Key) -> Self {
        if self.entries.contains_key(key) {
            CacheState {
                entries: self.entries.remove(key),
                groups: unfiled(self.groups, self.entries[key].expiry, key),
                capacity: self.capacity,
            }
        } else {
            self
        }
    }

    /// The cache with an entry for `key`, which it does not hold yet.
    pub open spec fn with(self, key: Key, value: Val, expiry: int) -> Self {
        CacheState {
            entries: self.entries.insert(key, Entry { value, expiry }),
            groups: filed(self.groups, expiry, key),
            capacity: self.capacity,
        }
    }

    /// The cache after one eviction: without the victim. A cache without entries stays as
    /// it is.
    pub open spec fn evicted(self) -> Self {
        if self.groups.dom().is_empty() {
            self
        } else {
            self.without(self.victim())
        }
    }

    /// A new key finds the cache full: it holds as many entries as its capacity says.
    pub open spec fn full(self) -> bool {
        self.entries.len() == self.capacity
    }

    /// The cache after `key` was stored at `now` with time-to-live `ttl`.
    ///
    /// An entry that `key` had is replaced, and nothing is evicted. A new key evicts one
    /// entry first if the cache is full.
    pub open spec fn set_at(self, key: Key, value: Val, ttl: int, now: int) -> Self {
        let room = if self.entries.contains_key(key) {
            self.without(key)
        } else if self.full() {
            self.evicted()
        } else {
            self
        };
        room.with(key, value, expiry_instant(now, ttl))
    }

    /// The cache without the entries that are due at `now`.
    pub open spec fn purged(self, now: int) -> Self {
        CacheState {
            entries: Map::new(
                |key: Key| self.entries.contains_key(key) && self.entries[key].expiry > now,
                |key: Key| self.entries[key],
            ),
            groups: Map::new(
                |instant: int| self.groups.contains_key(instant) && instant > now,
                |instant: int| self.groups[instant],
            ),
            capacity: self.capacity,
        }
    }

    /// The cache without any entry.
    pub open spec fn cleared(self) -> Self {
        Self::empty(self.capacity)
    }
}

/// Taking the only occurrence of a key out of a sequence without duplicates: the key is
/// gone, every other key stays, and nothing occurs twice.
pub proof fn without_first_of_distinct<Key>(keys: Seq<Key>, key: Key)
    requires
        keys.no_duplicates(),
        keys.contains(key),
    ensures
        without_first(keys, key).len() == keys.len() - 1,
        without_first(keys, key).no_duplicates(),
        !without_first(keys, key).contains(key),
        forall|other: Key|
            other != key ==> (#[trigger] without_first(keys, key).contains(other)
                <==> keys.contains(other)),
{
    let at = first_position(keys, key);
    assert(is_first_position(keys, key, at)) by {
        let i = choose|i: int| 0 <= i < keys.len() && keys[i] == key;
        assert(is_first_position(keys, key, i));
    }
    let rest = keys.remove(at);
    assert forall|other: Key| other != key implies (#[trigger] rest.contains(other)
        <==> keys.contains(other)) by {
        if keys.contains(other) {
            let j = choose|j: int| 0 <= j < keys.len() && keys[j] == other;
            if j < at {
                assert(rest[j] == other);
            } else {
                assert(rest[j - 1] == other);
            }
        }
    }
}

/// In a group without duplicates, taking out the last key is taking out its only
/// occurrence.
pub proof fn unfiled_last_is_unfiled<Key>(groups: Map<int, Seq<Key>>, instant: int)
    requires
        groups.contains_key(instant),
        groups[instant].len() > 0,
        groups[instant].no_duplicates(),
    ensures
        groups[instant].contains(groups[instant].last()),
        unfiled_last(groups, instant) == unfiled(groups, instant, groups[instant].last()),
{
    let group = groups[instant];
    first_position_is_unique(group, group.last(), group.len() - 1);
}

/// A finite set of instants that is not empty has a least member.
pub proof fn least_instant_exists(instants: Set<int>)
    requires
        instants.finite(),
        !instants.is_empty(),
    ensures
        exists|least: int|
            instants.contains(least) && forall|other: int|
                instants.contains(other) ==> least <= other,
    decreases instants.len(),
{
    let rest = instants.remove(instants.choose());
    if !rest.is_empty() {
        least_instant_exists(rest);
    }
}

impl<Key, Val> CacheState<Key, Val> {
    /// In a cache that holds entries, the victim is one of them, and no entry expires
    /// before it.
    pub proof fn victim_expires_first(self)
        requires
            self.consistent(),
            self.len() > 0,
        ensures
            is_earliest(self.groups, self.earliest()),
            self.entries.contains_key(self.victim()),
            self.entries[self.victim()].expiry == self.earliest(),
            forall|key: Key| #[trigger]
                self.entries.contains_key(key) ==> self.earliest() <= self.entries[key].expiry,
    {
        let some_key = self.entries.dom().choose();
        assert(self.entries.contains_key(some_key));
        least_instant_exists(self.groups.dom());
        let least = choose|least: int|
            self.groups.dom().contains(least) && forall|other: int|
                self.groups.dom().contains(other) ==> least <= other;
        assert(is_earliest(self.groups, least));
        let earliest = self.earliest();
        let group = self.groups[earliest];
        assert(group.contains(group.last()));
    }

    /// A cache holds no entry exactly when its index has no group.
    pub proof fn no_entries_no_groups(self)
        requires
            self.consistent(),
        ensures
            self.len() == 0 <==> self.groups.dom().is_empty(),
    {
        if self.len() > 0 {
            self.victim_expires_first();
        } else if !self.groups.dom().is_empty() {
            let group = self.groups[self.groups.dom().choose()];
            assert(group.contains(group[0]));
        }
    }

    /// Removing an entry keeps the invariant, and takes exactly that entry away.
    pub proof fn without_consistent(self, key: Key)
        requires
            self.consistent(),
        ensures
            self.without(key).consistent(),
            self.entries.contains_key(key) ==> self.without(key).len() == self.len() - 1,
            !self.entries.contains_key(key) ==> self.without(key) == self,
    {
        if self.entries.contains_key(key) {
            without_first_of_distinct(self.groups[self.entries[key].expiry], key);
        }
    }

    /// Storing a new key keeps the invariant where there is room for it.
    pub proof fn with_consistent(self, key: Key, value: Val, expiry: int)
        requires
            self.consistent(),
            !self.entries.contains_key(key),
            self.capacity > 0 ==> self.len() < self.capacity,
        ensures
            self.with(key, value, expiry).consistent(),
            self.with(key, value, expiry).len() == self.len() + 1,
    {
        if self.groups.contains_key(expiry) {
            let group = self.groups[expiry];
            let grown = group.push(key);
            assert(!group.contains(key));
            assert forall|other: Key| #[trigger] grown.contains(other) <==> (other == key
                || group.contains(other)) by {
                if other == key {
                    assert(grown[group.len() as int] == key);
                }
                if group.contains(other) {
                    let i = choose|i: int| 0 <= i < group.len() && group[i] == other;
                    assert(grown[i] == other);
                }
            }
        } else {
            let single = seq![key];
            assert forall|other: Key| #[trigger] single.contains(other) <==> other == key by {
                if other == key {
                    assert(single[0] == key);
                }
            }
        }
    }

    /// An eviction keeps the invariant, and takes one entry away if there is any.
    pub proof fn evicted_consistent(self)
        requires
            self.consistent(),
        ensures
            self.evicted().consistent(),
            self.len() > 0 ==> self.evicted().len() == self.len() - 1,
            self.len() == 0 ==> self.evicted() == self,
    {
        if self.len() > 0 {
            self.victim_expires_first();
            self.without_consistent(self.victim());
        }
    }

    /// Storing a key keeps the invariant.
    pub proof fn set_at_consistent(self, key: Key, value: Val, ttl: int, now: int)
        requires
            self.consistent(),
        ensures
            self.set_at(key, value, ttl, now).consistent(),
    {
        let expiry = expiry_instant(now, ttl);
        if self.entries.contains_key(key) {
            self.without_consistent(key);
            self.without(key).with_consistent(key, value, expiry);
        } else if self.full() {
            self.evicted_consistent();
            self.evicted().with_consistent(key, value, expiry);
        } else {
            self.with_consistent(key, value, expiry);
        }
    }

    /// Where nothing is due, a purge changes nothing.
    pub proof fn purged_when_nothing_due(self, now: int)
        requires
            self.consistent(),
            !self.has_expired(now),
        ensures
            self.purged(now) == self,
    {
        assert(self.purged(now).entries =~= self.entries);
        assert(self.purged(now).groups =~= self.groups);
    }

    /// While something is due, an eviction takes a due entry away: purging afterwards
    /// gives what purging at once gives.
    pub proof fn evicted_then_purged(self, now: int)
        requires
            self.consistent(),
            self.has_expired(now),
        ensures
            self.len() > 0,
            self.entries[self.victim()].expiry <= now,
            self.evicted().purged(now) == self.purged(now),
    {
        self.no_entries_no_groups();
        self.victim_expires_first();
        let after = self.evicted();
        assert(after.purged(now).entries =~= self.purged(now).entries);
        assert(after.purged(now).groups =~= self.purged(now).groups);
    }

    /// A purge keeps the invariant, and leaves nothing that is due.
    pub proof fn purged_consistent(self, now: int)
        requires
            self.consistent(),
        ensures
            self.purged(now).consistent(),
            !self.purged(now).has_expired(now),
            self.purged(now).len() <= self.len(),
    {
        let after = self.purged(now);
        vstd::set_lib::lemma_len_subset(after.entries.dom(), self.entries.dom());
        vstd::set_lib::lemma_len_subset(after.groups.dom(), self.groups.dom());
    }
}

} // verus!
