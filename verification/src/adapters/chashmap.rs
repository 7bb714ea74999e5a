//! The hash map of the `chashmap` crate as a table, as far as it can be
//! used without risk: the making of it and the handing out of handles. A
//! lookup, a removal or an update of a key that is not there breaks down
//! where no bucket of the map was left empty, and an insert where other
//! threads fill the last buckets while it looks for one. So the four
//! operations are left to who holds the map and can bear that.

use std::sync::Arc;
use vstd::prelude::*;

verus! {

/// `chashmap::CHashMap`, opaque here.
#[verifier::external_type_specification]
#[verifier::external_body]
#[verifier::reject_recursive_types(K)]
#[verifier::reject_recursive_types(V)]
pub struct ExCHashMap<K, V>(::chashmap::CHashMap<K, V>);

/// A handle on a `CHashMap` from keys to counters. All handles that come
/// from one table by `pin` share its map.
pub struct CHashMapTable {
    map: Arc<::chashmap::CHashMap<u64, u32>>,
}

/// `CHashMap::with_capacity`: a new map. Nothing is claimed of it.
#[verifier::external_body]
fn new_map(capacity: usize) -> ::chashmap::CHashMap<u64, u32> {
    ::chashmap::CHashMap::with_capacity(capacity)
}

impl CHashMapTable {
    /// The handle is one of this table: it works on the map of this table.
    pub closed spec fn serves(&self, handle: &Self) -> bool {
        handle.map == self.map
    }

    /// A table on a new map with room for `capacity` keys.
    pub fn with_capacity(capacity: usize) -> (table: Self) {
        CHashMapTable { map: Arc::new(new_map(capacity)) }
    }

    /// Another handle on the same map.
    pub fn pin(&self) -> (handle: Self)
        ensures
            self.serves(&handle),
    {
        CHashMapTable { map: self.map.clone() }
    }

    /// The map itself, for what is not done here.
    pub fn map(&self) -> (map: &::chashmap::CHashMap<u64, u32>)
        ensures
            *map == *self.shared(),
    {
        &*self.map
    }

    /// The map of the table.
    pub closed spec fn shared(&self) -> Arc<::chashmap::CHashMap<u64, u32>> {
        self.map
    }
}

} // verus!
