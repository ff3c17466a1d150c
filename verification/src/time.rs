use chrono::Utc;
use vstd::prelude::*;

verus! {

/// The width, in milliseconds, of the slots that expiry instants are rounded down to.
///
/// Rounding makes entries that are stored close together share one expiry instant, so that
/// the grouping of keys by instant is exercised in ordinary use.
pub const GRANULE_MS: i64 = 10;

/// The instant at which an entry expires that was stored at `now` with time-to-live `ttl`:
/// `now + ttl`, rounded down to a multiple of [`GRANULE_MS`].
///
/// Instants are milliseconds since the Unix epoch; both arguments may be negative.
pub open spec fn expiry_instant(now: int, ttl: int) -> int {
    (now + ttl) - (now + ttl) % (GRANULE_MS as int)
}

/// Computes [`expiry_instant`]. The result is wide enough for every pair of arguments.
pub fn expiry_after(now: i64, ttl: i64) -> (expiry: i128)
    ensures
        expiry == expiry_instant(now as int, ttl as int),
{
    let sum: i128 = now as i128 + ttl as i128;
    let rem: i128 = sum % (GRANULE_MS as i128);
    if rem < 0 {
        sum - rem - GRANULE_MS as i128
    } else {
        sum - rem
    }
}

/// Reads the wall clock through `chrono::Utc::now` and converts the reading with
/// `DateTime::timestamp_millis`: whole milliseconds since the Unix epoch. Nothing is
/// claimed of the value, which differs from call to call. `Utc::now` stops the program
/// on a machine whose clock stands before the epoch.
#[verifier::external_body]
pub(crate) fn now_millis() -> i64 {
    Utc::now().timestamp_millis()
}

} // verus!
