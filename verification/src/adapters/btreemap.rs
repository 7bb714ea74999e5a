//! The ordered map of the standard library as a table. It is not shared:
//! who wants several threads to use it puts it behind a lock.

use crate::adapters::{next_count, Contents, Table};
use std::collections::BTreeMap;
use vstd::prelude::*;

verus! {

/// An ordered map from keys to counters.
pub struct BTreeMapTable {
    map: BTreeMap<u64, u32>,
}

impl View for BTreeMapTable {
    type V = Contents;

    closed spec fn view(&self) -> Contents {
        self.map@
    }
}

impl Table for BTreeMapTable {
    open spec fn sound() -> bool {
        true
    }

    /// An ordered map has no capacity to set aside.
    fn with_capacity(capacity: usize) -> (table: Self) {
        BTreeMapTable { map: BTreeMap::new() }
    }

    fn get(&self, key: &u64) -> (present: bool) {
        broadcast use vstd::std_specs::btree::group_btree_axioms;

        self.map.get(key).is_some()
    }

    fn insert(&mut self, key: &u64) -> (fresh: bool) {
        broadcast use vstd::std_specs::btree::group_btree_axioms;

        self.map.insert(*key, 0).is_none()
    }

    fn remove(&mut self, key: &u64) -> (removed: bool) {
        broadcast use vstd::std_specs::btree::group_btree_axioms;

        self.map.remove(key).is_some()
    }

    fn update(&mut self, key: &u64) -> (updated: bool) {
        broadcast use vstd::std_specs::btree::group_btree_axioms;

        let count = match self.map.get(key) {
            Some(count) => *count,
            None => {
                return false;
            },
        };
        self.map.insert(*key, next_count(count));
        true
    }
}

} // verus!
