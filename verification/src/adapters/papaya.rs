//! The hash map of the `papaya` crate as a table.

use crate::adapters::{
    next_count, reports_found, reports_new, reports_removed, reports_updated, Collection,
    CollectionHandle, FIRST_COUNT,
};
use std::hash::BuildHasher;
use std::sync::Arc;
use vstd::prelude::*;

verus! {

/// `papaya::HashMap`, opaque here.
#[verifier::external_type_specification]
#[verifier::external_body]
#[verifier::reject_recursive_types(K)]
#[verifier::reject_recursive_types(V)]
#[verifier::reject_recursive_types(S)]
pub struct ExPapayaMap<K, V, S>(::papaya::HashMap<K, V, S>);

/// A handle on a `papaya` map from keys to counters. All handles that come
/// from one table by `pin` share its map.
#[verifier::reject_recursive_types(H)]
pub struct PapayaTable<H> {
    map: Arc<::papaya::HashMap<u64, u32, H>>,
}

/// `HashMap::builder`, with `capacity`, `hasher` and `build` of the
/// builder: a new map with the hasher that `H::default` builds. Nothing is
/// claimed of it.
#[verifier::external_body]
fn new_map<H: BuildHasher + Default + Clone>(capacity: usize) -> ::papaya::HashMap<u64, u32, H> {
    ::papaya::HashMap::builder().capacity(capacity).hasher(H::default()).build()
}

/// `HashMapRef::get`: the counter under `key`, if the map holds one. The
/// map is shared, so nothing is claimed of the outcome.
#[verifier::external_body]
fn lookup<H: BuildHasher + Default + Clone>(
    map: &::papaya::HashMap<u64, u32, H>,
    key: &u64,
) -> Option<u32> {
    map.pin().get(key).copied()
}

/// `HashMapRef::insert`: puts `count` under `key` and hands back the
/// counter that was there. The map is shared, so nothing is claimed of the
/// outcome.
#[verifier::external_body]
fn put<H: BuildHasher + Default + Clone>(
    map: &::papaya::HashMap<u64, u32, H>,
    key: u64,
    count: u32,
) -> Option<u32> {
    map.pin().insert(key, count).copied()
}

/// `HashMapRef::remove`: takes `key` out and hands back the counter that
/// was under it. The map is shared, so nothing is claimed of the outcome.
#[verifier::external_body]
fn take<H: BuildHasher + Default + Clone>(
    map: &::papaya::HashMap<u64, u32, H>,
    key: &u64,
) -> Option<u32> {
    map.pin().remove(key).copied()
}

/// `HashMapRef::update`: moves the counter under `key` on by one and hands
/// back the new count, if the map holds one. The map is shared, so nothing
/// is claimed of the outcome.
#[verifier::external_body]
fn advance<H: BuildHasher + Default + Clone>(
    map: &::papaya::HashMap<u64, u32, H>,
    key: u64,
) -> Option<u32> {
    map.pin().update(key, |count| next_count(*count)).copied()
}

impl<H: BuildHasher + Default + Clone> Collection for PapayaTable<H> {
    type Handle = Self;

    closed spec fn serves(&self, handle: &Self) -> bool {
        handle.map == self.map
    }

    /// A table on a new map with room for `capacity` keys.
    fn with_capacity(capacity: usize) -> (table: Self) {
        PapayaTable { map: Arc::new(new_map(capacity)) }
    }

    /// Another handle on the same map.
    fn pin(&self) -> (handle: Self) {
        PapayaTable { map: self.map.clone() }
    }
}

impl<H: BuildHasher + Default + Clone> CollectionHandle for PapayaTable<H> {
    /// Whether the map holds `key`.
    fn get(&mut self, key: &u64) -> (present: bool) {
        reports_found(lookup(&self.map, key))
    }

    /// Puts `key` into the map; whether it was not there before.
    fn insert(&mut self, key: &u64) -> (fresh: bool) {
        reports_new(put(&self.map, *key, FIRST_COUNT))
    }

    /// Takes `key` out of the map; whether it was there.
    fn remove(&mut self, key: &u64) -> (removed: bool) {
        reports_removed(take(&self.map, key))
    }

    /// Counts one more under `key` if the map holds it; whether it does.
    fn update(&mut self, key: &u64) -> (updated: bool) {
        reports_updated(advance(&self.map, *key))
    }
}

} // verus!
