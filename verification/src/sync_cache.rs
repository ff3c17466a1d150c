use crate::expiry_index::ExpiryIndex;
use crate::keys::{duplicate, key_model};
use crate::model::{unfiled_last_is_unfiled, CacheState, Entry};
use crate::time::{expiry_after, now_millis};
use std::collections::HashMap;
use std::hash::Hash;
use vstd::prelude::*;

verus! {

/// A cache whose entries expire: a value map, and an index of its keys by expiry instant.
///
/// The cache is for one owner at a time. It never looks at the clock by itself to hide an
/// entry: `get` answers from the value map, and whoever wants expired entries gone asks
/// for it with `has_expired_items` and `remove_expired_items`, or passes them over with
/// `get_live_at`.
///
/// The index holds one record for each key. Storing a key again takes its previous record
/// out of the index at once, so that evictions and purges never meet a stale record.
///
/// Times are whole milliseconds: instants since the Unix epoch, time-to-live as a signed
/// span.
pub struct SyncCache<Key, Val> {
    // Each key with its value and the instant at which it expires
    map: HashMap<Key, (Val, i128)>,
    // The keys by expiry instant
    expiries: ExpiryIndex<Key>,
    // The number of entries at which a new key evicts another; 0 for no bound
    capacity: usize,
}

impl<Key: Eq + Hash + Clone, Val> View for SyncCache<Key, Val> {
    type V = CacheState<Key, Val>;

    closed spec fn view(&self) -> CacheState<Key, Val> {
        CacheState {
            entries: Map::new(
                |key: Key| self.map@.contains_key(key),
                |key: Key| Entry { value: self.map@[key].0, expiry: self.map@[key].1 as int },
            ),
            groups: self.expiries@,
            capacity: self.capacity as nat,
        }
    }
}

impl<Key: Eq + Hash + Clone, Val> SyncCache<Key, Val> {
    /// The representation is sound.
    pub closed spec fn inv(&self) -> bool {
        self.expiries.wf()
    }

    /// The cache is well formed: its representation is sound, its state consistent, and
    /// its key type fit for hashing.
    pub open spec fn wf(&self) -> bool {
        &&& self.inv()
        &&& key_model::<Key>()
        &&& self@.consistent()
        &&& self@.len() <= usize::MAX
    }

    /// A cache without bound on the number of its entries.
    pub fn new() -> (cache: Self)
        requires
            key_model::<Key>(),
        ensures
            cache.wf(),
            cache@ == CacheState::<Key, Val>::empty(0),
    {
        Self::with_capacity(0)
    }

    /// A cache that holds at most `capacity` entries; without bound if `capacity` is 0.
    pub fn with_capacity(capacity: usize) -> (cache: Self)
        requires
            key_model::<Key>(),
        ensures
            cache.wf(),
            cache@ == CacheState::<Key, Val>::empty(capacity as nat),
    {
        let cache = SyncCache {
            map: HashMap::with_capacity(capacity),
            expiries: ExpiryIndex::new(),
            capacity,
        };
        assert(cache@.entries =~= Map::<Key, Entry<Val>>::empty());
        cache
    }

    /// Drops every entry.
    pub fn clear(&mut self)
        requires
            old(self).wf(),
        ensures
            final(self).wf(),
            final(self)@ == old(self)@.cleared(),
    {
        self.map.clear();
        self.expiries.clear();
        assert(self@.entries =~= Map::<Key, Entry<Val>>::empty());
    }

    /// The number of entries, expired ones that were not purged yet included.
    pub fn len(&self) -> (len: usize)
        requires
            self.wf(),
        ensures
            len == self@.len(),
    {
        broadcast use vstd::std_specs::hash::group_hash_axioms;

        assert(self@.entries.dom() =~= self.map@.dom());
        self.map.len()
    }

    /// Whether the cache holds no entry.
    pub fn is_empty(&self) -> (empty: bool)
        requires
            self.wf(),
        ensures
            empty == (self@.len() == 0),
    {
        self.len() == 0
    }

    /// The capacity that the cache was made with; 0 for a cache without bound.
    pub fn capacity(&self) -> (capacity: usize)
        ensures
            capacity == self@.capacity,
    {
        self.capacity
    }

    /// The index of the keys by expiry instant.
    pub fn expiries(&self) -> (index: &ExpiryIndex<Key>)
        requires
            self.wf(),
        ensures
            index.wf(),
            index@ == self@.groups,
    {
        &self.expiries
    }

    /// The value stored for `key`, whether or not it has expired.
    pub fn get(&self, key: &Key) -> (value: Option<&Val>)
        requires
            self.wf(),
        ensures
            match value {
                Some(value) => self@.value_of(*key) == Some(*value),
                None => self@.value_of(*key).is_none(),
            },
    {
        broadcast use vstd::std_specs::hash::group_hash_axioms;

        match self.map.get(key) {
            Some(entry) => Some(&entry.0),
            None => None,
        }
    }

    /// The value stored for `key`, if its entry has not expired at `now`: what `get` would
    /// answer after a purge at `now`. Nothing is purged; an expired entry stays where it
    /// is and is passed over.
    pub fn get_live_at(&self, key: &Key, now: i64) -> (value: Option<&Val>)
        requires
            self.wf(),
        ensures
            match value {
                Some(value) => self@.purged(now as int).value_of(*key) == Some(*value),
                None => self@.purged(now as int).value_of(*key).is_none(),
            },
    {
        broadcast use vstd::std_specs::hash::group_hash_axioms;

        match self.map.get(key) {
            Some(entry) => if entry.1 > now as i128 {
                Some(&entry.0)
            } else {
                None
            },
            None => None,
        }
    }

    /// Stores `value` for `key` at `now`, to expire `ttl` later. Tells whether `key` had
    /// an entry, which is then replaced, value and expiry instant: the latest time-to-live
    /// is the one that counts, be it shorter than the one before. If `key` had no entry
    /// and the cache is full, the entry that expires soonest is evicted first.
    pub fn set_at(&mut self, key: Key, value: Val, ttl: i64, now: i64) -> (had_key: bool)
        requires
            old(self).wf(),
        ensures
            final(self).wf(),
            had_key == old(self)@.entries.contains_key(key),
            final(self)@ == old(self)@.set_at(key, value, ttl as int, now as int),
    {
        broadcast use vstd::std_specs::hash::group_hash_axioms;

        let expiry = expiry_after(now, ttl);
        let previous: Option<i128> = match self.map.get(&key) {
            Some(entry) => Some(entry.1),
            None => None,
        };
        let had_key = match previous {
            Some(previous) => {
                // Take the key out of the group of its previous expiry
                self.expiries.remove(previous, &key);
                true
            },
            None => {
                // A new key: make room for it if the cache is full
                if self.map.len() == self.capacity {
                    self.evict();
                }
                false
            },
        };
        assert(old(self)@.entries.dom() =~= old(self).map@.dom());
        self.map.insert(duplicate(&key), (value, expiry));
        self.expiries.insert(expiry, key);
        proof {
            let after = old(self)@.set_at(key, value, ttl as int, now as int);
            assert(self@.entries =~= after.entries);
            old(self)@.set_at_consistent(key, value, ttl as int, now as int);
            assert(self.map.len() == self.map@.len());
        }
        had_key
    }

    /// Removes the entry of `key`. Tells whether there was one.
    pub fn remove(&mut self, key: &Key) -> (removed: bool)
        requires
            old(self).wf(),
        ensures
            final(self).wf(),
            removed == old(self)@.entries.contains_key(*key),
            final(self)@ == old(self)@.without(*key),
    {
        broadcast use vstd::std_specs::hash::group_hash_axioms;

        match self.map.remove(key) {
            Some(entry) => {
                self.expiries.remove(entry.1, key);
                proof {
                    assert(self@.entries =~= old(self)@.without(*key).entries);
                    old(self)@.without_consistent(*key);
                }
                true
            },
            None => {
                assert(self@.entries =~= old(self)@.entries);
                false
            },
        }
    }

    /// Whether some entry is due at `now`.
    pub fn has_expired_items_at(&self, now: i64) -> (expired: bool)
        requires
            self.wf(),
        ensures
            expired == self@.has_expired(now as int),
    {
        match self.expiries.peek_min() {
            Some(instant) => instant <= now as i128,
            None => false,
        }
    }

    /// Removes the entries that are due at `now`. Tells whether there was any.
    pub fn remove_expired_items_at(&mut self, now: i64) -> (removed: bool)
        requires
            old(self).wf(),
        ensures
            final(self).wf(),
            removed == old(self)@.has_expired(now as int),
            final(self)@ == old(self)@.purged(now as int),
    {
        let mut removed = false;
        while self.has_expired_items_at(now)
            invariant
                self.wf(),
                self@.purged(now as int) == old(self)@.purged(now as int),
                removed ==> old(self)@.has_expired(now as int),
                !removed ==> self@ == old(self)@,
            decreases self@.len(),
        {
            proof {
                self@.evicted_then_purged(now as int);
                self@.evicted_consistent();
            }
            self.evict();
            removed = true;
        }
        proof {
            self@.purged_when_nothing_due(now as int);
        }
        removed
    }

    /// Removes the entry that expires soonest; of several that expire together, the one
    /// stored last. Nothing happens to a cache without entries.
    pub fn evict(&mut self)
        requires
            old(self).wf(),
        ensures
            final(self).wf(),
            final(self)@ == old(self)@.evicted(),
    {
        broadcast use vstd::std_specs::hash::group_hash_axioms;

        match self.expiries.pop_min() {
            Some((instant, key)) => {
                self.map.remove(&key);
                proof {
                    let before = old(self)@;
                    unfiled_last_is_unfiled(before.groups, instant as int);
                    assert(self@.entries =~= before.evicted().entries);
                    before.evicted_consistent();
                }
            },
            None => {},
        }
    }

    /// Stores `value` for `key`, to expire `ttl` milliseconds from now. See `set_at`.
    pub fn set(&mut self, key: Key, value: Val, ttl: i64) -> (had_key: bool)
        requires
            old(self).wf(),
        ensures
            final(self).wf(),
            had_key == old(self)@.entries.contains_key(key),
            exists|now: i64|
                final(self)@ == old(self)@.set_at(key, value, ttl as int, now as int),
    {
        let now = now_millis();
        self.set_at(key, value, ttl, now)
    }

    /// Whether some entry is due now. See `has_expired_items_at`.
    pub fn has_expired_items(&self) -> (expired: bool)
        requires
            self.wf(),
        ensures
            exists|now: i64| expired == self@.has_expired(now as int),
    {
        let now = now_millis();
        self.has_expired_items_at(now)
    }

    /// Removes the entries that are due now. See `remove_expired_items_at`.
    pub fn remove_expired_items(&mut self) -> (removed: bool)
        requires
            old(self).wf(),
        ensures
            final(self).wf(),
            exists|now: i64|
                removed == old(self)@.has_expired(now as int) && final(self)@ == old(
                    self,
                )@.purged(now as int),
    {
        let now = now_millis();
        self.remove_expired_items_at(now)
    }
}

} // verus!
