//! The concurrent trie of the `contrie` crate as a table.

use crate::adapters::{
    count_of, counter, lock, next_count, reports_found, reports_new, reports_removed,
    reports_updated, set_count, Collection, CollectionHandle, FIRST_COUNT,
};
use std::hash::{BuildHasher, Hash};
use std::sync::Arc;
use vstd::prelude::*;

verus! {

/// `contrie::ConMap`, opaque here.
#[verifier::external_type_specification]
#[verifier::external_body]
#[verifier::reject_recursive_types(K)]
#[verifier::reject_recursive_types(V)]
#[verifier::reject_recursive_types(S)]
pub struct ExConMap<K: Hash + Eq + 'static, V: ?Sized + 'static, S>(::contrie::ConMap<K, V, S>);

/// `contrie::map::Element`, opaque here.
#[verifier::external_type_specification]
#[verifier::external_body]
#[verifier::reject_recursive_types(K)]
#[verifier::reject_recursive_types(V)]
pub struct ExElement<K, V: ?Sized>(::contrie::map::Element<K, V>);

/// A handle on a `ConMap` from keys to counters, each counter behind a
/// lock of its own. All handles that come from one table by `pin` share
/// its map.
#[verifier::reject_recursive_types(H)]
pub struct ContrieTable<H> {
    map: Arc<::contrie::ConMap<u64, ::parking_lot::Mutex<u32>, H>>,
}

/// `ConMap::with_hasher`, with the hasher that `H::default` builds: a new
/// map. Nothing is claimed of it.
#[verifier::external_body]
fn new_map<H: BuildHasher + Default + Clone>() -> ::contrie::ConMap<
    u64,
    ::parking_lot::Mutex<u32>,
    H,
> {
    ::contrie::ConMap::with_hasher(H::default())
}

/// `ConMap::get`: the element under `key`, if the map holds one. The map
/// is shared, so nothing is claimed of the outcome.
#[verifier::external_body]
fn find<H: BuildHasher + Default + Clone>(
    map: &::contrie::ConMap<u64, ::parking_lot::Mutex<u32>, H>,
    key: &u64,
) -> Option<Arc<::contrie::map::Element<u64, ::parking_lot::Mutex<u32>>>> {
    map.get(key)
}

/// `ConMap::insert`: puts `counter` under `key` and hands back the element
/// that was there. The map is shared, so nothing is claimed of the outcome.
#[verifier::external_body]
fn put<H: BuildHasher + Default + Clone>(
    map: &::contrie::ConMap<u64, ::parking_lot::Mutex<u32>, H>,
    key: u64,
    counter: ::parking_lot::Mutex<u32>,
) -> Option<Arc<::contrie::map::Element<u64, ::parking_lot::Mutex<u32>>>> {
    map.insert(key, counter)
}

/// `ConMap::remove`: takes `key` out and hands back the element that was
/// under it. The map is shared, so nothing is claimed of the outcome.
#[verifier::external_body]
fn take<H: BuildHasher + Default + Clone>(
    map: &::contrie::ConMap<u64, ::parking_lot::Mutex<u32>, H>,
    key: &u64,
) -> Option<Arc<::contrie::map::Element<u64, ::parking_lot::Mutex<u32>>>> {
    map.remove(key)
}

/// `Element::value`: the counter of the element. Nothing is claimed of it.
#[verifier::external_body]
fn counter_of<'a>(
    element: &'a ::contrie::map::Element<u64, ::parking_lot::Mutex<u32>>,
) -> &'a ::parking_lot::Mutex<u32> {
    element.value()
}

impl<H: BuildHasher + Default + Clone> Collection for ContrieTable<H> {
    type Handle = Self;

    closed spec fn serves(&self, handle: &Self) -> bool {
        handle.map == self.map
    }

    /// A table on a new map. A trie has no capacity to set aside.
    fn with_capacity(capacity: usize) -> (table: Self) {
        ContrieTable { map: Arc::new(new_map()) }
    }

    /// Another handle on the same map.
    fn pin(&self) -> (handle: Self) {
        ContrieTable { map: self.map.clone() }
    }
}

impl<H: BuildHasher + Default + Clone> CollectionHandle for ContrieTable<H> {
    /// Whether the map holds `key`.
    fn get(&mut self, key: &u64) -> (present: bool) {
        reports_found(find(&self.map, key))
    }

    /// Puts `key` into the map; whether it was not there before.
    fn insert(&mut self, key: &u64) -> (fresh: bool) {
        reports_new(put(&self.map, *key, counter(FIRST_COUNT)))
    }

    /// Takes `key` out of the map; whether it was there.
    fn remove(&mut self, key: &u64) -> (removed: bool) {
        reports_removed(take(&self.map, key))
    }

    /// Counts one more under `key` if the map holds it; whether it does.
    /// The counter is locked from the reading of the old count to the
    /// writing of the new one.
    fn update(&mut self, key: &u64) -> (updated: bool) {
        let written = match find(&self.map, key) {
            Some(element) => {
                let mut locked = lock(counter_of(&*element));
                let count = next_count(count_of(&locked));
                set_count(&mut locked, count);
                Some(count)
            },
            None => None,
        };
        reports_updated(written)
    }
}

} // verus!
