//! The hash map of the `flurry` crate as a table.

use crate::adapters::{
    next_count, reports_found, reports_new, reports_removed, reports_updated, Collection,
    CollectionHandle, FIRST_COUNT,
};
use std::hash::BuildHasher;
use std::sync::Arc;
use vstd::prelude::*;

verus! {

/// `flurry::HashMap`, opaque here.
#[verifier::external_type_specification]
#[verifier::external_body]
#[verifier::reject_recursive_types(K)]
#[verifier::reject_recursive_types(V)]
#[verifier::reject_recursive_types(S)]
pub struct ExFlurryMap<K, V, S>(::flurry::HashMap<K, V, S>);

/// How many retired entries a thread collects before it tries to free them.
pub const BATCH_SIZE: usize = 2000;

/// A `flurry` map from keys to counters, to take handles from.
#[verifier::reject_recursive_types(H)]
pub struct FlurryTable<H> {
    map: Arc<::flurry::HashMap<u64, u32, H>>,
}

/// A handle on the map of a `FlurryTable`. All handles of one table share
/// its map.
#[verifier::reject_recursive_types(H)]
pub struct FlurryHandle<H> {
    map: Arc<::flurry::HashMap<u64, u32, H>>,
}

/// `HashMap::with_capacity_and_hasher` and `HashMap::with_collector`: a
/// new map with the hasher that `H::default` builds, whose collector
/// frees in batches of `batch_size` and never advances the epoch by count.
/// The collector divides by the size of its batches, so the size is not 0.
/// Nothing is claimed of the map.
#[verifier::external_body]
fn new_map<H: BuildHasher + Default + Clone>(capacity: usize, batch_size: usize) -> (map:
    ::flurry::HashMap<u64, u32, H>)
    requires
        batch_size > 0,
{
    ::flurry::HashMap::with_capacity_and_hasher(capacity, H::default()).with_collector(
        ::seize::Collector::new().epoch_frequency(None).batch_size(batch_size),
    )
}

/// `HashMapRef::get`: the counter under `key`, if the map holds one. The
/// map is shared, so nothing is claimed of the outcome.
#[verifier::external_body]
fn lookup<H: BuildHasher + Default + Clone>(
    map: &::flurry::HashMap<u64, u32, H>,
    key: &u64,
) -> Option<u32> {
    map.pin().get(key).copied()
}

/// `HashMapRef::insert`: puts `count` under `key` and hands back the
/// counter that was there. The map is shared, so nothing is claimed of the
/// outcome.
#[verifier::external_body]
fn put<H: BuildHasher + Default + Clone>(
    map: &::flurry::HashMap<u64, u32, H>,
    key: u64,
    count: u32,
) -> Option<u32> {
    map.pin().insert(key, count).copied()
}

/// `HashMapRef::remove`: takes `key` out and hands back the counter that
/// was under it. The map is shared, so nothing is claimed of the outcome.
#[verifier::external_body]
fn take<H: BuildHasher + Default + Clone>(
    map: &::flurry::HashMap<u64, u32, H>,
    key: &u64,
) -> Option<u32> {
    map.pin().remove(key).copied()
}

/// `HashMapRef::compute_if_present`: moves the counter under `key` on by
/// one and hands back the new count, if the map holds one. The map is
/// shared, so nothing is claimed of the outcome.
#[verifier::external_body]
fn advance<H: BuildHasher + Default + Clone>(
    map: &::flurry::HashMap<u64, u32, H>,
    key: &u64,
) -> Option<u32> {
    map.pin().compute_if_present(key, |_, count| Some(next_count(*count))).copied()
}

impl<H: BuildHasher + Default + Clone> Collection for FlurryTable<H> {
    type Handle = FlurryHandle<H>;

    closed spec fn serves(&self, handle: &FlurryHandle<H>) -> bool {
        handle.map == self.map
    }

    /// A table on a new map with room for `capacity` keys.
    fn with_capacity(capacity: usize) -> (table: Self) {
        FlurryTable { map: Arc::new(new_map(capacity, BATCH_SIZE)) }
    }

    /// A handle on the map.
    fn pin(&self) -> (handle: FlurryHandle<H>) {
        FlurryHandle { map: self.map.clone() }
    }
}

impl<H: BuildHasher + Default + Clone> CollectionHandle for FlurryHandle<H> {
    /// Whether the map holds `key`.
    fn get(&mut self, key: &u64) -> (present: bool) {
        reports_found(lookup(&self.map, key))
    }

    /// Puts `key` into the map; whether it was not there before.
    fn insert(&mut self, key: &u64) -> (fresh: bool) {
        reports_new(put(&self.map, *key, FIRST_COUNT))
    }

    /// Takes `key` out of the map; whether it was there.
    fn remove(&mut self, key: &u64) -> (removed: bool) {
        reports_removed(take(&self.map, key))
    }

    /// Counts one more under `key` if the map holds it; whether it does.
    fn update(&mut self, key: &u64) -> (updated: bool) {
        reports_updated(advance(&self.map, key))
    }
}

} // verus!
