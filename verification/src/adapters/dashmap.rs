//! The sharded map of the `dashmap` crate as a table.

use crate::adapters::{
    next_count, reports_found, reports_new, reports_removed, reports_updated, Collection,
    CollectionHandle, FIRST_COUNT,
};
use std::hash::BuildHasher;
use std::sync::Arc;
use vstd::prelude::*;

verus! {

/// `dashmap::DashMap`, opaque here.
#[verifier::external_type_specification]
#[verifier::external_body]
#[verifier::reject_recursive_types(K)]
#[verifier::reject_recursive_types(V)]
#[verifier::reject_recursive_types(S)]
pub struct ExDashMap<K, V, S>(::dashmap::DashMap<K, V, S>);

/// A handle on a `DashMap` from keys to counters. All handles that come
/// from one table by `pin` share its map.
#[verifier::reject_recursive_types(H)]
pub struct DashMapTable<H> {
    map: Arc<::dashmap::DashMap<u64, u32, H>>,
}

/// `DashMap::with_capacity_and_hasher`, with the hasher that `H::default`
/// builds: a new map. Nothing is claimed of it.
#[verifier::external_body]
fn new_map<H: BuildHasher + Default + Clone>(capacity: usize) -> ::dashmap::DashMap<u64, u32, H> {
    ::dashmap::DashMap::with_capacity_and_hasher(capacity, H::default())
}

/// `DashMap::get`: the counter under `key`, if the map holds one. The map
/// is shared, so nothing is claimed of the outcome.
#[verifier::external_body]
fn lookup<H: BuildHasher + Default + Clone>(
    map: &::dashmap::DashMap<u64, u32, H>,
    key: &u64,
) -> Option<u32> {
    map.get(key).map(|entry| *entry)
}

/// `DashMap::insert`: puts `count` under `key` and hands back the counter
/// that was there. The map is shared, so nothing is claimed of the outcome.
#[verifier::external_body]
fn put<H: BuildHasher + Default + Clone>(
    map: &::dashmap::DashMap<u64, u32, H>,
    key: u64,
    count: u32,
) -> Option<u32> {
    map.insert(key, count)
}

/// `DashMap::remove`: takes `key` out and hands back the counter that was
/// under it. The map is shared, so nothing is claimed of the outcome.
#[verifier::external_body]
fn take<H: BuildHasher + Default + Clone>(
    map: &::dashmap::DashMap<u64, u32, H>,
    key: &u64,
) -> Option<u32> {
    map.remove(key).map(|pair| pair.1)
}

/// `dashmap::mapref::one::RefMut`, opaque here.
#[verifier::external_type_specification]
#[verifier::external_body]
#[verifier::reject_recursive_types(K)]
#[verifier::reject_recursive_types(V)]
pub struct ExRefMut<'a, K, V>(::dashmap::mapref::one::RefMut<'a, K, V>);

/// `DashMap::get_mut`: the counter under `key` to read and to write, if
/// the map holds one. The map is shared, so nothing is claimed of the
/// outcome.
#[verifier::external_body]
fn hold<'a, H: BuildHasher + Default + Clone>(
    map: &'a ::dashmap::DashMap<u64, u32, H>,
    key: &u64,
) -> Option<::dashmap::mapref::one::RefMut<'a, u64, u32>> {
    map.get_mut(key)
}

/// `RefMut::value`: the counter that is held. Nothing is claimed of it.
#[verifier::external_body]
fn count_of(held: &::dashmap::mapref::one::RefMut<'_, u64, u32>) -> u32 {
    *held.value()
}

/// `RefMut::value_mut`: puts `count` in place of the counter that is held.
#[verifier::external_body]
fn set_count(held: &mut ::dashmap::mapref::one::RefMut<'_, u64, u32>, count: u32) {
    *held.value_mut() = count;
}

impl<H: BuildHasher + Default + Clone> Collection for DashMapTable<H> {
    type Handle = Self;

    closed spec fn serves(&self, handle: &Self) -> bool {
        handle.map == self.map
    }

    /// A table on a new map with room for `capacity` keys.
    fn with_capacity(capacity: usize) -> (table: Self) {
        DashMapTable { map: Arc::new(new_map(capacity)) }
    }

    /// Another handle on the same map.
    fn pin(&self) -> (handle: Self) {
        DashMapTable { map: self.map.clone() }
    }
}

impl<H: BuildHasher + Default + Clone> CollectionHandle for DashMapTable<H> {
    /// Whether the map holds `key`.
    fn get(&mut self, key: &u64) -> (found: bool) {
        reports_found(lookup(&self.map, key))
    }

    /// Puts `key` into the map; whether it was not there before.
    fn insert(&mut self, key: &u64) -> (fresh: bool) {
        reports_new(put(&self.map, *key, FIRST_COUNT))
    }

    /// Takes `key` out of the map; whether it was there.
    fn remove(&mut self, key: &u64) -> (removed: bool) {
        reports_removed(take(&self.map, key))
    }

    /// Counts one more under `key` if the map holds it; whether it does.
    fn update(&mut self, key: &u64) -> (updated: bool) {
        let written = match hold(&self.map, key) {
            Some(mut held) => {
                let count = next_count(count_of(&held));
                set_count(&mut held, count);
                Some(count)
            },
            None => None,
        };
        reports_updated(written)
    }
}

} // verus!
