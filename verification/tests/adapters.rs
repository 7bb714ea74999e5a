use conc_map_bench::adapters::btreemap::BTreeMapTable;
use conc_map_bench::adapters::chashmap::CHashMapTable;
use conc_map_bench::adapters::contrie::ContrieTable;
use conc_map_bench::adapters::crossbeam_skiplist::CrossbeamSkipMapTable;
use conc_map_bench::adapters::dashmap::DashMapTable;
use conc_map_bench::adapters::evmap::EvmapTable;
use conc_map_bench::adapters::flurry::FlurryTable;
use conc_map_bench::adapters::hashmap::StdHashMapTable;
use conc_map_bench::adapters::papaya::PapayaTable;
use conc_map_bench::adapters::scc::{SccIndexTable, SccMapTable};
use conc_map_bench::adapters::{
    count_to_write, next_count, reports_found, reports_new, reports_removed, reports_updated,
    Collection, CollectionHandle, Table, FIRST_COUNT,
};
use std::collections::hash_map::RandomState;

fn owned_table_keeps_its_promises<T: Table>() {
    let mut table = T::with_capacity(16);
    assert!(!table.get(&7));
    // An update of a key that was never put in reports so and puts nothing in.
    assert!(!table.update(&7));
    assert!(!table.get(&7));
    // A new key is reported as new and found afterwards; a second insert is not new.
    assert!(table.insert(&7));
    assert!(table.get(&7));
    assert!(!table.insert(&7));
    assert!(table.get(&7));
    assert!(table.update(&7));
    assert!(table.get(&7));
    assert!(!table.get(&8));
    assert!(!table.remove(&8));
    assert!(table.remove(&7));
    assert!(!table.get(&7));
    assert!(!table.remove(&7));
    assert!(!table.update(&7));
}

fn shared_table_alone_behaves_like_a_map<C: Collection>() {
    let table = C::with_capacity(16);
    let mut handle = table.pin();
    assert!(!handle.get(&7));
    assert!(!handle.update(&7));
    assert!(!handle.get(&7));
    assert!(handle.insert(&7));
    assert!(handle.get(&7));
    assert!(!handle.insert(&7));
    assert!(handle.get(&7));
    assert!(handle.update(&7));
    assert!(handle.update(&7));
    assert!(!handle.get(&8));
    assert!(!handle.remove(&8));
    assert!(handle.remove(&7));
    assert!(!handle.get(&7));
    assert!(!handle.remove(&7));
    assert!(!handle.update(&7));
}

fn handles_of_one_table_share_its_map<C: Collection>() {
    let table = C::with_capacity(16);
    let mut first = table.pin();
    let mut second = table.pin();
    assert!(first.insert(&1));
    assert!(second.get(&1));
    assert!(!second.insert(&1));
    assert!(second.remove(&1));
    assert!(!first.get(&1));
}

#[test]
fn reports_follow_what_the_map_hands_back() {
    assert_eq!(FIRST_COUNT, 0);
    assert!(reports_found(Some(0)));
    assert!(reports_found(Some("anything")));
    assert!(!reports_found(None::<u32>));
    assert!(reports_new(None::<u32>));
    assert!(!reports_new(Some(0)));
    assert!(!reports_new(Some(u32::MAX)));
    assert!(reports_removed(Some((3, 4))));
    assert!(!reports_removed(None::<u32>));
    assert!(reports_updated(Some(1)));
    assert!(!reports_updated(None::<u32>));
}

#[test]
fn count_to_write_is_the_next_one() {
    assert_eq!(count_to_write(None), None);
    assert_eq!(count_to_write(Some(0)), Some(1));
    assert_eq!(count_to_write(Some(41)), Some(42));
    assert_eq!(count_to_write(Some(u32::MAX)), Some(0));
}

#[test]
fn count_moves_on_by_one_and_starts_over() {
    assert_eq!(next_count(0), 1);
    assert_eq!(next_count(41), 42);
    assert_eq!(next_count(u32::MAX), 0);
}

#[test]
fn std_hash_map_table() {
    owned_table_keeps_its_promises::<StdHashMapTable<RandomState>>();
    owned_table_keeps_its_promises::<StdHashMapTable<fxhash::FxBuildHasher>>();
    owned_table_keeps_its_promises::<StdHashMapTable<ahash::RandomState>>();
}

#[test]
fn new_std_hash_map_table_is_empty() {
    let table = StdHashMapTable::<RandomState>::with_capacity(1024);
    for key in 0..64u64 {
        assert!(!table.get(&key));
    }
}

#[test]
fn btree_map_table() {
    owned_table_keeps_its_promises::<BTreeMapTable>();
}

#[test]
fn chashmap_table() {
    let table = CHashMapTable::with_capacity(16);
    let first = table.pin();
    let second = table.pin();
    assert!(first.map().get(&7).is_none());
    assert!(reports_new(first.map().insert(7, FIRST_COUNT)));
    assert!(!reports_new(first.map().insert(7, FIRST_COUNT)));
    // Both handles work on the one map.
    assert!(reports_found(second.map().get(&7)));
    assert!(!reports_new(second.map().insert(7, FIRST_COUNT)));
    assert!(reports_new(second.map().insert(8, FIRST_COUNT)));
    assert!(reports_removed(first.map().remove(&8)));
    assert!(!reports_found(second.map().get(&8)));
    assert_eq!(table.map().len(), 1);
}

#[test]
fn scc_index_table() {
    let table = SccIndexTable::<RandomState>::with_capacity(16);
    let mut first = table.pin();
    let mut second = table.pin();
    assert!(!first.get(&7));
    assert!(!first.remove(&7));
    assert!(first.insert(&7));
    assert!(first.get(&7));
    assert!(!first.insert(&7));
    // Both handles work on the one index.
    assert!(second.get(&7));
    assert!(!second.insert(&7));
    assert_eq!(table.index().peek_with(&7, |_, count| *count), Some(0));
    assert!(second.remove(&7));
    assert!(!first.get(&7));
    assert!(!first.remove(&7));
    assert!(first.insert(&7));
    assert_eq!(table.index().len(), 1);
}

#[test]
fn contrie_table() {
    shared_table_alone_behaves_like_a_map::<ContrieTable<RandomState>>();
    handles_of_one_table_share_its_map::<ContrieTable<ahash::RandomState>>();
}

#[test]
fn crossbeam_skip_map_table() {
    shared_table_alone_behaves_like_a_map::<CrossbeamSkipMapTable>();
    handles_of_one_table_share_its_map::<CrossbeamSkipMapTable>();
}

#[test]
fn dashmap_table() {
    shared_table_alone_behaves_like_a_map::<DashMapTable<RandomState>>();
    handles_of_one_table_share_its_map::<DashMapTable<fxhash::FxBuildHasher>>();
}

#[test]
fn evmap_table() {
    shared_table_alone_behaves_like_a_map::<EvmapTable<RandomState>>();
    handles_of_one_table_share_its_map::<EvmapTable<fxhash::FxBuildHasher>>();
}

#[test]
fn flurry_table() {
    shared_table_alone_behaves_like_a_map::<FlurryTable<RandomState>>();
    handles_of_one_table_share_its_map::<FlurryTable<ahash::RandomState>>();
}

#[test]
fn papaya_table() {
    shared_table_alone_behaves_like_a_map::<PapayaTable<RandomState>>();
    handles_of_one_table_share_its_map::<PapayaTable<ahash::RandomState>>();
}

#[test]
fn scc_map_table() {
    shared_table_alone_behaves_like_a_map::<SccMapTable<RandomState>>();
    handles_of_one_table_share_its_map::<SccMapTable<ahash::RandomState>>();
}
