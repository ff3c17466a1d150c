//! An in-memory cache whose entries expire.
//!
//! Every entry carries the instant at which it expires. Expired entries are removed
//! lazily, when the cache is asked to purge, and a cache with a capacity evicts the entry
//! that expires soonest when a new key finds it full.
//!
//! - [`sync_cache`] holds the cache itself, for one owner at a time;
//! - [`expiry_index`] the index of its keys by expiry instant;
//! - [`model`] the state of a cache as the contracts see it, and [`laws`] what follows;
//! - [`concurrent`] and [`memo`] the steps that a cache behind a lock, and a function
//!   memoized by it, take while they hold the lock;
//! - [`time`] the clock and the rounding of expiry instants, [`keys`] what is asked of
//!   keys, and [`instants`] the sorted set of instants that the index rests on.

pub mod concurrent;
pub mod expiry_index;
pub mod instants;
pub mod keys;
pub mod laws;
pub mod memo;
pub mod model;
pub mod sync_cache;
pub mod time;

pub use expiry_index::ExpiryIndex;
pub use model::{CacheState, Entry};
pub use sync_cache::SyncCache;
