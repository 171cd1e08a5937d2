//! The local cache of recently accepted idempotency keys.
//!
//! The cache is a `moka::sync::Cache` from key to acceptance time. It evicts
//! by age and by size on its own and is shared between tasks, so a probe may
//! miss a key that was inserted earlier; the functions here claim nothing of
//! what a probe finds.

use moka::sync::Cache;
use std::time::Duration;
use vstd::prelude::*;

verus! {

/// Number of keys the local cache holds at most.
pub const CACHE_CAPACITY: u64 = 100_000;

/// Seconds after which a cached key expires.
pub const CACHE_TTL_SECS: u64 = 600;

/// The longest time to live that the cache accepts, in seconds: a thousand
/// years of 365 days.
pub const CACHE_TTL_LIMIT_SECS: u64 = 31_536_000_000;

/// `moka::sync::Cache`, carried as an opaque value.
#[verifier::external_type_specification]
#[verifier::external_body]
#[verifier::reject_recursive_types(K)]
#[verifier::reject_recursive_types(V)]
#[verifier::reject_recursive_types(S)]
pub struct ExCache<K, V, S>(Cache<K, V, S>);

/// The entry limit that a cache was built with, if it has one.
pub uninterp spec fn cache_limit(cache: Cache<String, i64>) -> Option<u64>;

/// The time to live that a cache was built with, in whole seconds, if it has
/// one.
pub uninterp spec fn cache_ttl_secs(cache: Cache<String, i64>) -> Option<u64>;

/// `Cache::builder`, `CacheBuilder::max_capacity`, `CacheBuilder::time_to_live`
/// and `CacheBuilder::build`: an empty cache with the given entry limit and
/// time to live. `build` panics for a time to live above a thousand years.
#[verifier::external_body]
pub(crate) fn build_cache(max_capacity: u64, ttl_secs: u64) -> (cache: Cache<String, i64>)
    requires
        ttl_secs <= CACHE_TTL_LIMIT_SECS,
    ensures
        cache_limit(cache) == Some(max_capacity),
        cache_ttl_secs(cache) == Some(ttl_secs),
{
    Cache::builder().max_capacity(max_capacity).time_to_live(Duration::from_secs(ttl_secs)).build()
}

/// `Cache::get`: looks the key up and hands out a copy of its value. What
/// the cache holds depends on the time and on other tasks, so nothing is
/// claimed of the result.
#[verifier::external_body]
pub(crate) fn cache_get(cache: &Cache<String, i64>, key: &String) -> Option<i64> {
    cache.get(key)
}

/// `Cache::insert`: stores the value under the key, replacing an entry for
/// the same key. The cache is shared and evicts on its own, so nothing is
/// claimed of its state afterwards.
#[verifier::external_body]
pub(crate) fn cache_insert(cache: &Cache<String, i64>, key: String, value: i64) {
    cache.insert(key, value)
}

/// `Cache::entry_count`: an estimate of the number of entries, of which
/// nothing is claimed.
#[verifier::external_body]
pub(crate) fn cache_entry_count(cache: &Cache<String, i64>) -> u64 {
    cache.entry_count()
}

} // verus!
