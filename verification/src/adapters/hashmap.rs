//! The hash map of the standard library as a table. It is not shared: who
//! wants several threads to use it puts it behind a lock.

use crate::adapters::{next_count, Contents, Table};
use std::collections::HashMap;
use std::hash::BuildHasher;
use vstd::prelude::*;
use vstd::std_specs::hash::builds_valid_hashers;

verus! {

/// `HashMap::with_capacity_and_hasher`: an empty map.
pub assume_specification<K, V, S>[ HashMap::<K, V, S>::with_capacity_and_hasher ](
    capacity: usize,
    hasher: S,
) -> (made: HashMap<K, V, S>)
    ensures
        made@.dom() == Set::<K>::empty(),
;

/// A hash map from keys to counters.
#[verifier::reject_recursive_types(H)]
pub struct StdHashMapTable<H> {
    map: HashMap<u64, u32, H>,
}

impl<H: BuildHasher + Default> View for StdHashMapTable<H> {
    type V = Contents;

    closed spec fn view(&self) -> Contents {
        self.map@
    }
}

/// With the hasher of the standard library the operations keep what they
/// promise.
pub proof fn lemma_random_state_is_sound()
    ensures
        StdHashMapTable::<std::collections::hash_map::RandomState>::sound(),
{
    broadcast use vstd::std_specs::hash::axiom_random_state_builds_valid_hashers;

}

impl<H: BuildHasher + Default> Table for StdHashMapTable<H> {
    open spec fn sound() -> bool {
        builds_valid_hashers::<H>()
    }

    fn with_capacity(capacity: usize) -> (table: Self) {
        StdHashMapTable { map: HashMap::with_capacity_and_hasher(capacity, H::default()) }
    }

    fn get(&self, key: &u64) -> (present: bool) {
        broadcast use vstd::std_specs::hash::group_hash_axioms;

        self.map.get(key).is_some()
    }

    fn insert(&mut self, key: &u64) -> (fresh: bool) {
        broadcast use vstd::std_specs::hash::group_hash_axioms;

        self.map.insert(*key, 0).is_none()
    }

    fn remove(&mut self, key: &u64) -> (removed: bool) {
        broadcast use vstd::std_specs::hash::group_hash_axioms;

        self.map.remove(key).is_some()
    }

    fn update(&mut self, key: &u64) -> (updated: bool) {
        broadcast use vstd::std_specs::hash::group_hash_axioms;

        let count = match self.map.get(key) {
            Some(count) => *count,
            None => {
                return false;
            },
        };
        self.map.insert(*key, next_count(count));
        true
    }
}

} // verus!
