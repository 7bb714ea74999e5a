//! The eventually consistent map of the `evmap` crate as a table. Readers
//! see what the writer last published; every write here is published at
//! once.

use crate::adapters::{
    count_to_write, reports_found, reports_new, reports_removed, Collection, CollectionHandle,
    FIRST_COUNT,
};
use std::hash::{BuildHasher, Hash};
use std::sync::Arc;
use vstd::prelude::*;

verus! {

/// `evmap::ReadHandle`, opaque here.
#[verifier::external_type_specification]
#[verifier::external_body]
#[verifier::reject_recursive_types(K)]
#[verifier::reject_recursive_types(V)]
#[verifier::reject_recursive_types(M)]
#[verifier::reject_recursive_types(S)]
pub struct ExReadHandle<K: Eq + Hash, V, M, S: BuildHasher>(::evmap::ReadHandle<K, V, M, S>);

/// The writing handle of an `evmap` map from keys to counters, behind its
/// lock.
#[verifier::external_body]
#[verifier::reject_recursive_types(H)]
pub struct Writer<H: BuildHasher + Clone> {
    inner: ::parking_lot::Mutex<::evmap::WriteHandle<u64, u32, (), H>>,
}

/// An `evmap` map from keys to counters: a reading handle behind a lock, to
/// make more of, and the writing handle, to take handles from.
#[verifier::reject_recursive_types(H)]
pub struct EvmapTable<H: BuildHasher + Clone> {
    rd: Arc<::parking_lot::Mutex<::evmap::ReadHandle<u64, u32, (), H>>>,
    wr: Arc<Writer<H>>,
}

/// A handle on the map of an `EvmapTable`: a reading handle of its own,
/// and the one writing handle that all share.
#[verifier::reject_recursive_types(H)]
pub struct EvmapTableHandle<H: BuildHasher + Clone> {
    rd: ::evmap::ReadHandle<u64, u32, (), H>,
    wr: Arc<Writer<H>>,
}

/// `Options::with_hasher`, `Options::with_capacity` and
/// `Options::construct`: the two handles of a new map with the hasher that
/// `H::default` builds, each behind a lock. Nothing is claimed of them.
#[verifier::external_body]
fn construct<H: BuildHasher + Default + Clone>(capacity: usize) -> (
    ::parking_lot::Mutex<::evmap::ReadHandle<u64, u32, (), H>>,
    Writer<H>,
) {
    let (rd, wr) = ::evmap::Options::default().with_hasher(H::default()).with_capacity(
        capacity,
    ).construct();
    (::parking_lot::Mutex::new(rd), Writer { inner: ::parking_lot::Mutex::new(wr) })
}

/// `ReadHandle::clone`: one more reading handle on the same map. Nothing
/// is claimed of it.
#[verifier::external_body]
fn reader_of<H: BuildHasher + Default + Clone>(
    locked: &::parking_lot::Mutex<::evmap::ReadHandle<u64, u32, (), H>>,
) -> ::evmap::ReadHandle<u64, u32, (), H> {
    locked.lock().clone()
}

/// `ReadHandle::get_one`: a counter under `key`, if the published map
/// holds one. The map is shared, so nothing is claimed of the outcome.
#[verifier::external_body]
fn lookup<H: BuildHasher + Default + Clone>(
    reader: &::evmap::ReadHandle<u64, u32, (), H>,
    key: &u64,
) -> Option<u32> {
    reader.get_one(key).map(|count| *count)
}

/// `WriteHandle::insert` and `WriteHandle::refresh`: adds `count` under
/// `key` and publishes the map.
#[verifier::external_body]
fn put<H: BuildHasher + Default + Clone>(writer: &Writer<H>, key: u64, count: u32) {
    writer.inner.lock().insert(key, count).refresh();
}

/// `WriteHandle::empty` and `WriteHandle::refresh`: takes all counters
/// under `key` out and publishes the map.
#[verifier::external_body]
fn clear<H: BuildHasher + Default + Clone>(writer: &Writer<H>, key: u64) {
    writer.inner.lock().empty(key).refresh();
}

/// `WriteHandle::update` and `WriteHandle::refresh`: puts `count` under
/// `key` in place of what was there and publishes the map.
#[verifier::external_body]
fn replace<H: BuildHasher + Default + Clone>(writer: &Writer<H>, key: u64, count: u32) {
    writer.inner.lock().update(key, count).refresh();
}

impl<H: BuildHasher + Default + Clone> Collection for EvmapTable<H> {
    type Handle = EvmapTableHandle<H>;

    closed spec fn serves(&self, handle: &EvmapTableHandle<H>) -> bool {
        handle.wr == self.wr
    }

    /// A table on a new map with room for `capacity` keys.
    fn with_capacity(capacity: usize) -> (table: Self) {
        let (rd, wr) = construct(capacity);
        EvmapTable { rd: Arc::new(rd), wr: Arc::new(wr) }
    }

    /// A handle on the map.
    fn pin(&self) -> (handle: EvmapTableHandle<H>) {
        EvmapTableHandle { rd: reader_of(&self.rd), wr: self.wr.clone() }
    }
}

impl<H: BuildHasher + Default + Clone> CollectionHandle for EvmapTableHandle<H> {
    /// Whether the published map holds `key`.
    fn get(&mut self, key: &u64) -> (present: bool) {
        reports_found(lookup(&self.rd, key))
    }

    /// Puts `key` into the map; whether a lookup just before did not find it.
    fn insert(&mut self, key: &u64) -> (fresh: bool) {
        let fresh = reports_new(lookup(&self.rd, key));
        put(&self.wr, *key, FIRST_COUNT);
        fresh
    }

    /// Takes `key` out of the map; whether a lookup just before found it.
    fn remove(&mut self, key: &u64) -> (removed: bool) {
        let removed = reports_removed(lookup(&self.rd, key));
        clear(&self.wr, *key);
        removed
    }

    /// Counts one more under `key` if a lookup finds it: whether a second
    /// lookup, just before the new count is written, still finds it. A key
    /// that the first lookup does not find is left alone.
    fn update(&mut self, key: &u64) -> (updated: bool) {
        let count = match count_to_write(lookup(&self.rd, key)) {
            Some(count) => count,
            None => {
                return false;
            },
        };
        let updated = reports_found(lookup(&self.rd, key));
        replace(&self.wr, *key, count);
        updated
    }
}

} // verus!
