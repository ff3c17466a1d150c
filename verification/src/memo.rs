use crate::concurrent::is_copy_of;
use crate::model::CacheState;
use crate::sync_cache::SyncCache;
use crate::time::{expiry_instant, now_millis};
use std::hash::Hash;
use vstd::prelude::*;

verus! {

/// A memoized call for `key` that looks up at `asked` invokes the producer exactly when
/// the cache holds no value for `key` that is live at `asked`. An entry that has expired
/// counts as absent, purged or not.
pub open spec fn invokes_producer<Key, Val>(
    state: CacheState<Key, Val>,
    key: Key,
    asked: int,
) -> bool {
    state.purged(asked).value_of(key).is_none()
}

/// The cache after a memoized call for `key` that looked up at `asked`, where the
/// producer, if the call invoked it, came to `outcome` and a success was stored at
/// `stored`: a success is stored, and nothing else changes the cache.
pub open spec fn after_call<Key, Val, Failure>(
    state: CacheState<Key, Val>,
    key: Key,
    outcome: Result<(Val, int), Failure>,
    asked: int,
    stored: int,
) -> CacheState<Key, Val> {
    if invokes_producer(state, key, asked) {
        match outcome {
            Ok((value, ttl)) => state.set_at(key, value, ttl, stored),
            Err(_) => state,
        }
    } else {
        state
    }
}

/// After a call whose producer succeeded, the cache holds the value until it expires,
/// the time-to-live counted from the instant of storing: a call for the same key before
/// that instant finds the value and does not invoke the producer.
pub proof fn success_is_memoized<Key, Val, Failure>(
    state: CacheState<Key, Val>,
    key: Key,
    value: Val,
    ttl: int,
    asked: int,
    stored: int,
    later: int,
)
    requires
        state.consistent(),
        invokes_producer(state, key, asked),
        later < expiry_instant(stored, ttl),
    ensures
        ({
            let after = after_call(
                state,
                key,
                Ok::<(Val, int), Failure>((value, ttl)),
                asked,
                stored,
            );
            &&& after.purged(later).value_of(key) == Some(value)
            &&& !invokes_producer(after, key, later)
        }),
{
}

/// A success that has expired is not handed out: from its expiry instant on, a call for
/// the same key invokes the producer again.
pub proof fn expired_success_is_produced_again<Key, Val, Failure>(
    state: CacheState<Key, Val>,
    key: Key,
    value: Val,
    ttl: int,
    asked: int,
    stored: int,
    later: int,
)
    requires
        state.consistent(),
        invokes_producer(state, key, asked),
        expiry_instant(stored, ttl) <= later,
    ensures
        invokes_producer(
            after_call(state, key, Ok::<(Val, int), Failure>((value, ttl)), asked, stored),
            key,
            later,
        ),
{
}

/// After a call whose producer failed, the cache is as it was: a call for the same key,
/// then or later, invokes the producer again.
pub proof fn failure_is_not_memoized<Key, Val, Failure>(
    state: CacheState<Key, Val>,
    key: Key,
    failure: Failure,
    asked: int,
    stored: int,
    later: int,
)
    requires
        invokes_producer(state, key, asked),
        asked <= later,
    ensures
        after_call(state, key, Err::<(Val, int), Failure>(failure), asked, stored) == state,
        invokes_producer(
            after_call(state, key, Err::<(Val, int), Failure>(failure), asked, stored),
            key,
            later,
        ),
{
}

/// A call that finds a live value leaves the cache as it is, whatever the producer would
/// have come to.
pub proof fn hit_changes_nothing<Key, Val, Failure>(
    state: CacheState<Key, Val>,
    key: Key,
    outcome: Result<(Val, int), Failure>,
    asked: int,
    stored: int,
)
    requires
        !invokes_producer(state, key, asked),
    ensures
        after_call(state, key, outcome, asked, stored) == state,
{
}

/// The first step of a memoized call, under shared access: a copy of the value that the
/// cache holds for `key`, if the entry has not expired at `now`. `Some` ends the call, and
/// the producer is not invoked; `None` has the caller give up access, invoke the producer,
/// and come back with `settle`.
///
/// Nothing is purged: an expired entry stays in the cache, and counts as absent.
pub fn recall_at<Key: Eq + Hash + Clone, Val: Clone>(
    cache: &SyncCache<Key, Val>,
    key: &Key,
    now: i64,
) -> (value: Option<Val>)
    requires
        cache.wf(),
    ensures
        is_copy_of(value, cache@.purged(now as int).value_of(*key)),
        value.is_none() <==> invokes_producer(cache@, *key, now as int),
{
    cache.get_live_at(key, now).cloned()
}

/// `recall_at` at the instant that the clock gives.
pub fn recall<Key: Eq + Hash + Clone, Val: Clone>(
    cache: &SyncCache<Key, Val>,
    key: &Key,
) -> (value: Option<Val>)
    requires
        cache.wf(),
    ensures
        exists|now: i64|
            {
                &&& is_copy_of(value, cache@.purged(now as int).value_of(*key))
                &&& value.is_none() <==> invokes_producer(cache@, *key, now as int)
            },
{
    let now = now_millis();
    recall_at(cache, key, now)
}

/// The last step of a memoized call, under exclusive access, with what the producer came
/// to at `now`. A success is stored with the time-to-live that came with it, counted from
/// `now`, and its value handed on. A failure is handed on as it is, and nothing is stored.
pub fn settle_at<Key: Eq + Hash + Clone, Val: Clone, Failure>(
    cache: &mut SyncCache<Key, Val>,
    key: Key,
    outcome: Result<(Val, i64), Failure>,
    now: i64,
) -> (reply: Result<Val, Failure>)
    requires
        old(cache).wf(),
    ensures
        final(cache).wf(),
        match outcome {
            Ok((value, ttl)) => {
                &&& reply == Ok::<Val, Failure>(value)
                &&& exists|stored: Val|
                    cloned(value, stored) && final(cache)@ == old(cache)@.set_at(
                        key,
                        stored,
                        ttl as int,
                        now as int,
                    )
            },
            Err(failure) => {
                &&& reply == Err::<Val, Failure>(failure)
                &&& final(cache)@ == old(cache)@
            },
        },
{
    match outcome {
        Ok((value, ttl)) => {
            let stored = value.clone();
            cache.set_at(key, stored, ttl, now);
            assert(cloned(value, stored) && cache@ == old(cache)@.set_at(
                key,
                stored,
                ttl as int,
                now as int,
            ));
            Ok(value)
        },
        Err(failure) => Err(failure),
    }
}

/// `settle_at` at the instant that the clock gives.
pub fn settle<Key: Eq + Hash + Clone, Val: Clone, Failure>(
    cache: &mut SyncCache<Key, Val>,
    key: Key,
    outcome: Result<(Val, i64), Failure>,
) -> (reply: Result<Val, Failure>)
    requires
        old(cache).wf(),
    ensures
        final(cache).wf(),
        match outcome {
            Ok((value, ttl)) => {
                &&& reply == Ok::<Val, Failure>(value)
                &&& exists|stored: Val, now: i64|
                    cloned(value, stored) && final(cache)@ == old(cache)@.set_at(
                        key,
                        stored,
                        ttl as int,
                        now as int,
                    )
            },
            Err(failure) => {
                &&& reply == Err::<Val, Failure>(failure)
                &&& final(cache)@ == old(cache)@
            },
        },
{
    let now = now_millis();
    settle_at(cache, key, outcome, now)
}

} // verus!
