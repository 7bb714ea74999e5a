//! The skip list of the `crossbeam-skiplist` crate as a table.

use crate::adapters::{
    count_of, counter, lock, next_count, reports_found, reports_new, reports_removed,
    reports_updated, set_count, Collection, CollectionHandle, FIRST_COUNT,
};
use std::sync::Arc;
use vstd::prelude::*;

verus! {

/// `crossbeam_skiplist::SkipMap`, opaque here.
#[verifier::external_type_specification]
#[verifier::external_body]
#[verifier::reject_recursive_types(K)]
#[verifier::reject_recursive_types(V)]
pub struct ExSkipMap<K, V>(::crossbeam_skiplist::SkipMap<K, V>);

/// `crossbeam_skiplist::map::Entry`, opaque here.
#[verifier::external_type_specification]
#[verifier::external_body]
#[verifier::reject_recursive_types(K)]
#[verifier::reject_recursive_types(V)]
pub struct ExEntry<'a, K, V>(::crossbeam_skiplist::map::Entry<'a, K, V>);

/// A handle on a `SkipMap` from keys to counters, each counter behind a
/// lock of its own. All handles that come from one table by `pin` share
/// its map.
pub struct CrossbeamSkipMapTable {
    map: Arc<::crossbeam_skiplist::SkipMap<u64, ::parking_lot::Mutex<u32>>>,
}

/// `SkipMap::new`: a new map. Nothing is claimed of it.
#[verifier::external_body]
fn new_map() -> ::crossbeam_skiplist::SkipMap<u64, ::parking_lot::Mutex<u32>> {
    ::crossbeam_skiplist::SkipMap::new()
}

/// `SkipMap::get`: the entry under `key`, if the map holds one. The map is
/// shared, so nothing is claimed of the outcome.
#[verifier::external_body]
fn find<'a>(
    map: &'a ::crossbeam_skiplist::SkipMap<u64, ::parking_lot::Mutex<u32>>,
    key: &u64,
) -> Option<::crossbeam_skiplist::map::Entry<'a, u64, ::parking_lot::Mutex<u32>>> {
    map.get(key)
}

/// `SkipMap::insert`: puts `counter` under `key` in place of what was
/// there, and hands back the entry that now stands there. The map is
/// shared, so nothing is claimed of the outcome.
#[verifier::external_body]
fn put<'a>(
    map: &'a ::crossbeam_skiplist::SkipMap<u64, ::parking_lot::Mutex<u32>>,
    key: u64,
    counter: ::parking_lot::Mutex<u32>,
) -> ::crossbeam_skiplist::map::Entry<'a, u64, ::parking_lot::Mutex<u32>> {
    map.insert(key, counter)
}

/// `SkipMap::remove`: takes `key` out and hands back the entry that was
/// under it. The map is shared, so nothing is claimed of the outcome.
#[verifier::external_body]
fn take<'a>(
    map: &'a ::crossbeam_skiplist::SkipMap<u64, ::parking_lot::Mutex<u32>>,
    key: &u64,
) -> Option<::crossbeam_skiplist::map::Entry<'a, u64, ::parking_lot::Mutex<u32>>> {
    map.remove(key)
}

/// `Entry::value`: the counter of the entry. Nothing is claimed of it.
#[verifier::external_body]
fn counter_of<'a, 'b>(
    entry: &'b ::crossbeam_skiplist::map::Entry<'a, u64, ::parking_lot::Mutex<u32>>,
) -> &'b ::parking_lot::Mutex<u32> {
    entry.value()
}

impl Collection for CrossbeamSkipMapTable {
    type Handle = Self;

    closed spec fn serves(&self, handle: &Self) -> bool {
        handle.map == self.map
    }

    /// A table on a new map. A skip list has no capacity to set aside.
    fn with_capacity(capacity: usize) -> (table: Self) {
        CrossbeamSkipMapTable { map: Arc::new(new_map()) }
    }

    /// Another handle on the same map.
    fn pin(&self) -> (handle: Self) {
        CrossbeamSkipMapTable { map: self.map.clone() }
    }
}

impl CollectionHandle for CrossbeamSkipMapTable {
    /// Whether the map holds `key`.
    fn get(&mut self, key: &u64) -> (present: bool) {
        reports_found(find(&self.map, key))
    }

    /// Puts `key` into the map; whether a lookup just before did not find it.
    fn insert(&mut self, key: &u64) -> (fresh: bool) {
        let fresh = reports_new(find(&self.map, key));
        put(&self.map, *key, counter(FIRST_COUNT));
        fresh
    }

    /// Takes `key` out of the map; whether it was there.
    fn remove(&mut self, key: &u64) -> (removed: bool) {
        reports_removed(take(&self.map, key))
    }

    /// Counts one more under `key` if the map holds it; whether it does.
    /// The counter is locked from the reading of the old count to the
    /// writing of the new one.
    fn update(&mut self, key: &u64) -> (updated: bool) {
        let written = match find(&self.map, key) {
            Some(entry) => {
                let mut locked = lock(counter_of(&entry));
                let count = next_count(count_of(&locked));
                set_count(&mut locked, count);
                Some(count)
            },
            None => None,
        };
        reports_updated(written)
    }
}

} // verus!
