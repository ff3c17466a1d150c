use crate::sync_cache::SyncCache;
use crate::time::now_millis;
use std::hash::Hash;
use vstd::prelude::*;

verus! {

/// `copy` answers for `held`: both are absent, or `copy` is a clone of the value held.
pub open spec fn is_copy_of<Val: Clone>(copy: Option<Val>, held: Option<Val>) -> bool {
    match (copy, held) {
        (Some(copy), Some(held)) => cloned(held, copy),
        (None, None) => true,
        _ => false,
    }
}

/// What a lookup came to that had shared access to the cache only.
pub enum ReadAttempt<Val> {
    /// Nothing was due, so what the value map says stands: a copy of the value, if the
    /// key has one.
    Done(Option<Val>),
    /// Something was due. The caller gives up shared access, takes exclusive access, and
    /// looks up with `read_after_purge`.
    NeedsPurge,
}

/// The first phase of a lookup by many readers and writers, under shared access: answers
/// from the value map if nothing is due at `now`, and asks for a purge otherwise. Values
/// are handed out as copies, for an entry may be gone as soon as access is given up.
pub fn try_read_at<Key: Eq + Hash + Clone, Val: Clone>(
    cache: &SyncCache<Key, Val>,
    key: &Key,
    now: i64,
) -> (attempt: ReadAttempt<Val>)
    requires
        cache.wf(),
    ensures
        match attempt {
            ReadAttempt::Done(value) => {
                &&& !cache@.has_expired(now as int)
                &&& cache@.purged(now as int) == cache@
                &&& is_copy_of(value, cache@.value_of(*key))
            },
            ReadAttempt::NeedsPurge => cache@.has_expired(now as int),
        },
{
    if cache.has_expired_items_at(now) {
        ReadAttempt::NeedsPurge
    } else {
        proof {
            cache@.purged_when_nothing_due(now as int);
        }
        ReadAttempt::Done(cache.get(key).cloned())
    }
}

/// The second phase, under exclusive access: purges what is due at `now`, then answers
/// from the value map. Another caller may have purged in between; the purge then finds
/// nothing to do.
pub fn read_after_purge_at<Key: Eq + Hash + Clone, Val: Clone>(
    cache: &mut SyncCache<Key, Val>,
    key: &Key,
    now: i64,
) -> (value: Option<Val>)
    requires
        old(cache).wf(),
    ensures
        final(cache).wf(),
        final(cache)@ == old(cache)@.purged(now as int),
        is_copy_of(value, old(cache)@.purged(now as int).value_of(*key)),
{
    cache.remove_expired_items_at(now);
    cache.get(key).cloned()
}

/// `try_read_at` at the instant that the clock gives.
pub fn try_read<Key: Eq + Hash + Clone, Val: Clone>(
    cache: &SyncCache<Key, Val>,
    key: &Key,
) -> (attempt: ReadAttempt<Val>)
    requires
        cache.wf(),
    ensures
        exists|now: i64|
            match attempt {
                ReadAttempt::Done(value) => {
                    &&& !cache@.has_expired(now as int)
                    &&& cache@.purged(now as int) == cache@
                    &&& is_copy_of(value, cache@.value_of(*key))
                },
                ReadAttempt::NeedsPurge => cache@.has_expired(now as int),
            },
{
    let now = now_millis();
    try_read_at(cache, key, now)
}

/// `read_after_purge_at` at the instant that the clock gives.
pub fn read_after_purge<Key: Eq + Hash + Clone, Val: Clone>(
    cache: &mut SyncCache<Key, Val>,
    key: &Key,
) -> (value: Option<Val>)
    requires
        old(cache).wf(),
    ensures
        final(cache).wf(),
        exists|now: i64|
            final(cache)@ == old(cache)@.purged(now as int) && is_copy_of(
                value,
                old(cache)@.purged(now as int).value_of(*key),
            ),
{
    let now = now_millis();
    read_after_purge_at(cache, key, now)
}

} // verus!
