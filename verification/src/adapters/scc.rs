//! The hash map and the hash index of the `scc` crate as tables. The index
//! lets a counter be written in place by unsafe code only, so its update is
//! left to who holds the index and can answer for that.

use crate::adapters::{
    next_count, reports_found, reports_new, reports_removed, reports_updated, Collection,
    CollectionHandle, FIRST_COUNT,
};
use std::hash::BuildHasher;
use std::sync::Arc;
use vstd::prelude::*;

verus! {

/// `scc::HashMap`, opaque here.
#[verifier::external_type_specification]
#[verifier::external_body]
#[verifier::reject_recursive_types(K)]
#[verifier::reject_recursive_types(V)]
#[verifier::reject_recursive_types(H)]
pub struct ExSccMap<K, V, H: BuildHasher>(::scc::HashMap<K, V, H>);

/// A handle on an `scc` map from keys to counters. All handles that come
/// from one table by `pin` share its map.
#[verifier::reject_recursive_types(H)]
pub struct SccMapTable<H: BuildHasher> {
    map: Arc<::scc::HashMap<u64, u32, H>>,
}

/// `HashMap::with_capacity_and_hasher`, with the hasher that `H::default`
/// builds: a new map. Nothing is claimed of it.
#[verifier::external_body]
fn new_map<H: BuildHasher + Default + Clone>(capacity: usize) -> ::scc::HashMap<u64, u32, H> {
    ::scc::HashMap::with_capacity_and_hasher(capacity, H::default())
}

/// `HashMap::read`: the counter under `key`, if the map holds one. The map
/// is shared, so nothing is claimed of the outcome.
#[verifier::external_body]
fn lookup<H: BuildHasher + Default + Clone>(
    map: &::scc::HashMap<u64, u32, H>,
    key: &u64,
) -> Option<u32> {
    map.read(key, |_, count| *count)
}

/// `HashMap::insert`: puts `count` under `key` unless the map holds the
/// key, and hands `count` back where it does. The map is shared, so nothing
/// is claimed of the outcome.
#[verifier::external_body]
fn put<H: BuildHasher + Default + Clone>(
    map: &::scc::HashMap<u64, u32, H>,
    key: u64,
    count: u32,
) -> Option<u32> {
    map.insert(key, count).err().map(|pair| pair.1)
}

/// `HashMap::remove`: takes `key` out and hands back the counter that was
/// under it. The map is shared, so nothing is claimed of the outcome.
#[verifier::external_body]
fn take<H: BuildHasher + Default + Clone>(
    map: &::scc::HashMap<u64, u32, H>,
    key: &u64,
) -> Option<u32> {
    map.remove(key).map(|pair| pair.1)
}

/// `HashMap::update`: moves the counter under `key` on by one and hands
/// back the new count, if the map holds one. The map is shared, so nothing
/// is claimed of the outcome.
#[verifier::external_body]
fn advance<H: BuildHasher + Default + Clone>(
    map: &::scc::HashMap<u64, u32, H>,
    key: &u64,
) -> Option<u32> {
    map.update(
        key,
        |_, count|
            {
                *count = next_count(*count);
                *count
            },
    )
}

impl<H: BuildHasher + Default + Clone> Collection for SccMapTable<H> {
    type Handle = Self;

    closed spec fn serves(&self, handle: &Self) -> bool {
        handle.map == self.map
    }

    /// A table on a new map with room for `capacity` keys.
    fn with_capacity(capacity: usize) -> (table: Self) {
        SccMapTable { map: Arc::new(new_map(capacity)) }
    }

    /// Another handle on the same map.
    fn pin(&self) -> (handle: Self) {
        SccMapTable { map: self.map.clone() }
    }
}

impl<H: BuildHasher + Default + Clone> CollectionHandle for SccMapTable<H> {
    /// Whether the map holds `key`.
    fn get(&mut self, key: &u64) -> (present: bool) {
        reports_found(lookup(&self.map, key))
    }

    /// Puts `key` into the map; whether it was not there before.
    fn insert(&mut self, key: &u64) -> (fresh: bool) {
        reports_new(put(&self.map, *key, FIRST_COUNT))
    }

    /// Takes `key` out of the map; whether it was there.
    fn remove(&mut self, key: &u64) -> (removed: bool) {
        reports_removed(take(&self.map, key))
    }

    /// Counts one more under `key` if the map holds it; whether it does.
    fn update(&mut self, key: &u64) -> (updated: bool) {
        reports_updated(advance(&self.map, key))
    }
}

/// `scc::HashIndex`, opaque here.
#[verifier::external_type_specification]
#[verifier::external_body]
#[verifier::reject_recursive_types(K)]
#[verifier::reject_recursive_types(V)]
#[verifier::reject_recursive_types(H)]
pub struct ExSccIndex<K, V, H: BuildHasher>(::scc::HashIndex<K, V, H>);

/// A handle on an `scc` index from keys to counters. All handles that come
/// from one table by `pin` share its index.
#[verifier::reject_recursive_types(H)]
pub struct SccIndexTable<H: BuildHasher> {
    index: Arc<::scc::HashIndex<u64, u32, H>>,
}

/// `HashIndex::with_capacity_and_hasher`, with the hasher that `H::default`
/// builds: a new index. Nothing is claimed of it.
#[verifier::external_body]
fn new_index<H: BuildHasher + Default + Clone>(capacity: usize) -> ::scc::HashIndex<u64, u32, H> {
    ::scc::HashIndex::with_capacity_and_hasher(capacity, H::default())
}

/// `HashIndex::peek_with`: the counter under `key`, if the index holds one.
/// The index is shared, so nothing is claimed of the outcome.
#[verifier::external_body]
fn peek<H: BuildHasher + Default + Clone>(
    index: &::scc::HashIndex<u64, u32, H>,
    key: &u64,
) -> Option<u32> {
    index.peek_with(key, |_, count| *count)
}

/// `HashIndex::insert`: puts `count` under `key` unless the index holds
/// the key, and hands `count` back where it does. The index is shared, so
/// nothing is claimed of the outcome.
#[verifier::external_body]
fn enter<H: BuildHasher + Default + Clone>(
    index: &::scc::HashIndex<u64, u32, H>,
    key: u64,
    count: u32,
) -> Option<u32> {
    index.insert(key, count).err().map(|pair| pair.1)
}

/// `HashIndex::remove`: takes `key` out and says whether it was there. The
/// index is shared, so nothing is claimed of the outcome.
#[verifier::external_body]
fn drop_key<H: BuildHasher + Default + Clone>(
    index: &::scc::HashIndex<u64, u32, H>,
    key: &u64,
) -> bool {
    index.remove(key)
}

impl<H: BuildHasher + Default + Clone> SccIndexTable<H> {
    /// The handle is one of this table: it works on the index of this table.
    pub closed spec fn serves(&self, handle: &Self) -> bool {
        handle.index == self.index
    }

    /// The index of the table.
    pub closed spec fn shared(&self) -> Arc<::scc::HashIndex<u64, u32, H>> {
        self.index
    }

    /// A table on a new index with room for `capacity` keys.
    pub fn with_capacity(capacity: usize) -> (table: Self) {
        SccIndexTable { index: Arc::new(new_index(capacity)) }
    }

    /// Another handle on the same index.
    pub fn pin(&self) -> (handle: Self)
        ensures
            self.serves(&handle),
    {
        SccIndexTable { index: self.index.clone() }
    }

    /// The index itself, for what is not done here.
    pub fn index(&self) -> (index: &::scc::HashIndex<u64, u32, H>)
        ensures
            *index == *self.shared(),
    {
        &*self.index
    }

    /// Whether the index holds `key`. The handle stays as it is.
    pub fn get(&mut self, key: &u64) -> (present: bool)
        ensures
            *final(self) == *old(self),
    {
        reports_found(peek(&self.index, key))
    }

    /// Puts `key` into the index; whether it was not there before. The
    /// handle stays as it is.
    pub fn insert(&mut self, key: &u64) -> (fresh: bool)
        ensures
            *final(self) == *old(self),
    {
        reports_new(enter(&self.index, *key, FIRST_COUNT))
    }

    /// Takes `key` out of the index; whether it was there, as the index
    /// says. The handle stays as it is.
    pub fn remove(&mut self, key: &u64) -> (removed: bool)
        ensures
            *final(self) == *old(self),
    {
        drop_key(&self.index, key)
    }
}

} // verus!
