use crate::expiry_index::is_earliest;
use crate::model::CacheState;
use crate::time::{expiry_instant, GRANULE_MS};
use vstd::prelude::*;

verus! {

/// A time-to-live below zero gives an expiry instant before the instant of storing.
pub proof fn negative_ttl_expires_before_now(now: int, ttl: int)
    requires
        ttl < 0,
    ensures
        expiry_instant(now, ttl) < now,
{
}

/// The expiry instant is never after `now + ttl`, and less than one granule before it.
pub proof fn expiry_instant_bounds(now: int, ttl: int)
    ensures
        now + ttl - GRANULE_MS < expiry_instant(now, ttl) <= now + ttl,
        expiry_instant(now, ttl) % (GRANULE_MS as int) == 0,
{
}

impl<Key, Val> CacheState<Key, Val> {
    /// What was stored is what the value map answers, whatever the time-to-live; and the
    /// entry expires at the instant that the time-to-live gives.
    pub proof fn stored_is_held(self, key: Key, value: Val, ttl: int, now: int)
        requires
            self.consistent(),
        ensures
            self.set_at(key, value, ttl, now).value_of(key) == Some(value),
            self.set_at(key, value, ttl, now).entries[key].expiry == expiry_instant(now, ttl),
    {
    }

    /// An entry stored with a time-to-live below zero is never seen by a lookup that
    /// purges first: at any instant from the storing on, something is due, and the purge
    /// takes the entry away.
    pub proof fn negative_ttl_is_never_seen(
        self,
        key: Key,
        value: Val,
        ttl: int,
        now: int,
        later: int,
    )
        requires
            self.consistent(),
            ttl < 0,
            now <= later,
        ensures
            self.set_at(key, value, ttl, now).has_expired(later),
            self.set_at(key, value, ttl, now).purged(later).value_of(key).is_none(),
    {
        self.set_at_consistent(key, value, ttl, now);
    }

    /// Two keys stored with the same time-to-live, such that both are due at `later`: a
    /// purge at `later` reports a removal and leaves neither.
    pub proof fn ties_are_purged_together(
        self,
        first: Key,
        first_value: Val,
        first_now: int,
        second: Key,
        second_value: Val,
        second_now: int,
        ttl: int,
        later: int,
    )
        requires
            self.consistent(),
            expiry_instant(first_now, ttl) <= later,
            expiry_instant(second_now, ttl) <= later,
        ensures
            ({
                let stored = self.set_at(first, first_value, ttl, first_now).set_at(
                    second,
                    second_value,
                    ttl,
                    second_now,
                );
                &&& stored.has_expired(later)
                &&& stored.purged(later).value_of(first).is_none()
                &&& stored.purged(later).value_of(second).is_none()
            }),
    {
        let once = self.set_at(first, first_value, ttl, first_now);
        self.set_at_consistent(first, first_value, ttl, first_now);
        once.set_at_consistent(second, second_value, ttl, second_now);
        assert(once.set_at(second, second_value, ttl, second_now).entries.contains_key(second));
    }

    /// Storing a key changes no entry of another key, but that it may evict one.
    pub proof fn set_at_keeps_others(self, key: Key, value: Val, ttl: int, now: int)
        requires
            self.consistent(),
        ensures
            forall|other: Key|
                other != key && #[trigger] self.set_at(key, value, ttl, now).entries.contains_key(
                    other,
                ) ==> self.entries.contains_key(other) && self.set_at(
                    key,
                    value,
                    ttl,
                    now,
                ).entries[other] == self.entries[other],
    {
    }

    /// Storing a key again replaces its value, whichever of the two times-to-live is the
    /// longer, and the second storing leaves the number of entries as it is.
    pub proof fn overwrite_replaces(
        self,
        key: Key,
        first_value: Val,
        first_ttl: int,
        first_now: int,
        second_value: Val,
        second_ttl: int,
        second_now: int,
    )
        requires
            self.consistent(),
        ensures
            ({
                let once = self.set_at(key, first_value, first_ttl, first_now);
                let twice = once.set_at(key, second_value, second_ttl, second_now);
                &&& twice.value_of(key) == Some(second_value)
                &&& twice.entries[key].expiry == expiry_instant(second_now, second_ttl)
                &&& twice.len() == once.len()
                &&& twice.entries.dom() == once.entries.dom()
            }),
    {
    }

    /// Storing a key that has an entry evicts nothing, full or not: the cache holds the
    /// same keys afterwards, and the entries of the other keys are as they were.
    pub proof fn overwrite_evicts_nothing(self, key: Key, value: Val, ttl: int, now: int)
        requires
            self.consistent(),
            self.entries.contains_key(key),
        ensures
            self.set_at(key, value, ttl, now).entries.dom() == self.entries.dom(),
            self.set_at(key, value, ttl, now).len() == self.len(),
            forall|other: Key|
                other != key && #[trigger] self.entries.contains_key(other) ==> self.set_at(
                    key,
                    value,
                    ttl,
                    now,
                ).entries[other] == self.entries[other],
    {
    }

    /// A new key that finds a bounded cache full evicts exactly the victim, which no entry
    /// expires before: the number of entries stays, the victim is gone, every other entry
    /// is as it was, and the new key is held.
    pub proof fn full_cache_evicts_soonest(self, key: Key, value: Val, ttl: int, now: int)
        requires
            self.consistent(),
            self.capacity > 0,
            self.full(),
            !self.entries.contains_key(key),
        ensures
            ({
                let after = self.set_at(key, value, ttl, now);
                let victim = self.victim();
                &&& self.entries.contains_key(victim)
                &&& forall|other: Key| #[trigger]
                    self.entries.contains_key(other) ==> self.entries[victim].expiry
                        <= self.entries[other].expiry
                &&& after.len() == self.len()
                &&& !after.entries.contains_key(victim)
                &&& after.value_of(key) == Some(value)
                &&& forall|other: Key|
                    other != victim && #[trigger] self.entries.contains_key(other)
                        ==> after.entries.contains_key(other) && after.entries[other]
                        == self.entries[other]
            }),
    {
        self.victim_expires_first();
    }

    /// A new key that finds room evicts nothing.
    pub proof fn room_evicts_nothing(self, key: Key, value: Val, ttl: int, now: int)
        requires
            self.consistent(),
            !self.entries.contains_key(key),
            !self.full(),
        ensures
            self.set_at(key, value, ttl, now) == self.with(key, value, expiry_instant(now, ttl)),
            self.set_at(key, value, ttl, now).len() == self.len() + 1,
            forall|other: Key| #[trigger]
                self.entries.contains_key(other) ==> self.set_at(
                    key,
                    value,
                    ttl,
                    now,
                ).entries.contains_key(other),
    {
    }

    /// A cache with a capacity never holds more entries than that.
    pub proof fn capacity_is_kept(self, key: Key, value: Val, ttl: int, now: int)
        requires
            self.consistent(),
            self.capacity > 0,
        ensures
            self.set_at(key, value, ttl, now).len() <= self.capacity,
    {
        self.set_at_consistent(key, value, ttl, now);
    }

    /// A cache without bound never evicts: storing a new key keeps every entry.
    pub proof fn unbounded_never_evicts(self, key: Key, value: Val, ttl: int, now: int)
        requires
            self.consistent(),
            self.capacity == 0,
        ensures
            forall|other: Key| #[trigger]
                self.entries.contains_key(other) ==> self.set_at(
                    key,
                    value,
                    ttl,
                    now,
                ).entries.contains_key(other),
    {
    }

    /// Removing, evicting and purging take entries away and alter none: what the cache
    /// holds for a key afterwards is what it held before.
    pub proof fn removals_alter_nothing(self, key: Key, now: int)
        requires
            self.consistent(),
        ensures
            forall|other: Key| #[trigger]
                self.without(key).entries.contains_key(other) ==> self.entries.contains_key(other)
                    && self.without(key).entries[other] == self.entries[other],
            forall|other: Key| #[trigger]
                self.evicted().entries.contains_key(other) ==> self.entries.contains_key(other)
                    && self.evicted().entries[other] == self.entries[other],
            forall|other: Key| #[trigger]
                self.purged(now).entries.contains_key(other) ==> self.entries.contains_key(other)
                    && self.purged(now).entries[other] == self.entries[other],
    {
    }

    /// Whether something is due is decided by the earliest expiry instant alone.
    pub proof fn due_by_the_earliest(self, earliest: int, now: int)
        requires
            is_earliest(self.groups, earliest),
        ensures
            self.earliest() == earliest,
            self.has_expired(now) <==> earliest <= now,
    {
    }

    /// Where nothing is due, no entry has expired: each expires after `now`.
    pub proof fn nothing_due_means_all_live(self, now: int)
        requires
            self.consistent(),
            !self.has_expired(now),
        ensures
            forall|key: Key| #[trigger]
                self.entries.contains_key(key) ==> self.entries[key].expiry > now,
            self.purged(now) == self,
    {
        self.purged_when_nothing_due(now);
    }

    /// A purge leaves exactly the entries that are not due, unchanged.
    pub proof fn purge_leaves_the_live(self, now: int, key: Key)
        requires
            self.consistent(),
        ensures
            self.purged(now).value_of(key) == if self.entries.contains_key(key)
                && self.entries[key].expiry > now {
                self.value_of(key)
            } else {
                None
            },
    {
    }

    /// A second purge, at the same instant or an earlier one, with nothing stored in
    /// between, finds nothing due and changes nothing.
    pub proof fn purge_is_idempotent(self, now: int, again: int)
        requires
            self.consistent(),
            again <= now,
        ensures
            !self.purged(now).has_expired(again),
            self.purged(now).purged(again) == self.purged(now),
    {
        self.purged_consistent(now);
        self.purged(now).purged_when_nothing_due(again);
    }
}

} // verus!
