//! The tables under test: each wraps one map and offers the four
//! operations of a benchmark run.

use vstd::prelude::*;

pub mod btreemap;
pub mod chashmap;
pub mod contrie;
pub mod crossbeam_skiplist;
pub mod dashmap;
pub mod evmap;
pub mod flurry;
pub mod hashmap;
pub mod papaya;
pub mod scc;

verus! {

/// The lock of the `lock_api` crate that `parking_lot::Mutex` is made of,
/// opaque here.
#[verifier::external_type_specification]
#[verifier::external_body]
#[verifier::reject_recursive_types(R)]
#[verifier::reject_recursive_types(T)]
pub struct ExMutex<R, T: ?Sized>(::parking_lot::lock_api::Mutex<R, T>);

/// `parking_lot::RawMutex`, opaque here.
#[verifier::external_type_specification]
#[verifier::external_body]
pub struct ExRawMutex(::parking_lot::RawMutex);

/// A counter behind a `parking_lot::Mutex`, locked: as long as this is
/// held, nobody else reads or writes the counter.
#[verifier::external_body]
pub struct Locked<'a> {
    guard: ::parking_lot::MutexGuard<'a, u32>,
}

/// `Mutex::new`: a counter that stands at `count`, behind a lock of its own.
/// Nothing is claimed of it.
#[verifier::external_body]
pub(crate) fn counter(count: u32) -> ::parking_lot::Mutex<u32> {
    ::parking_lot::Mutex::new(count)
}

/// `Mutex::lock`: waits for the lock of the counter and holds it. Nothing
/// is claimed of what is held.
#[verifier::external_body]
pub(crate) fn lock<'a>(counter: &'a ::parking_lot::Mutex<u32>) -> Locked<'a> {
    Locked { guard: counter.lock() }
}

/// `MutexGuard::deref`: the count at which the locked counter stands.
/// Others may have moved it on before it was locked, so nothing is claimed
/// of the count.
#[verifier::external_body]
pub(crate) fn count_of(locked: &Locked<'_>) -> u32 {
    *locked.guard
}

/// `MutexGuard::deref_mut`: puts the locked counter at `count`.
#[verifier::external_body]
pub(crate) fn set_count(locked: &mut Locked<'_>, count: u32) {
    *locked.guard = count;
}

/// The count after `count`, starting over after the largest.
pub open spec fn count_after(count: u32) -> u32 {
    if count == u32::MAX {
        0
    } else {
        (count + 1) as u32
    }
}

/// The count after `count`, starting over after the largest.
pub fn next_count(count: u32) -> (next: u32)
    ensures
        next == count_after(count),
{
    count.wrapping_add(1)
}

/// What a table holds: a counter under each key that is in it.
pub type Contents = Map<u64, u32>;

/// Whether the table holds `key`.
pub open spec fn found(table: Contents, key: u64) -> bool {
    table.contains_key(key)
}

/// What an insert of `key` reports: whether the key is new to the table.
pub open spec fn insert_reports(table: Contents, key: u64) -> bool {
    !found(table, key)
}

/// What a removal of `key` reports: whether the table held the key.
pub open spec fn remove_reports(table: Contents, key: u64) -> bool {
    found(table, key)
}

/// What an update of `key` reports: whether the table holds the key.
pub open spec fn update_reports(table: Contents, key: u64) -> bool {
    found(table, key)
}

/// The table after `key` was put in: a counter of 0 stands under it.
pub open spec fn after_insert(table: Contents, key: u64) -> Contents {
    table.insert(key, 0)
}

/// The table after `key` was taken out.
pub open spec fn after_remove(table: Contents, key: u64) -> Contents {
    table.remove(key)
}

/// The table after an update of `key`: its counter has moved on by one if
/// the table holds the key, and nothing has changed if it does not.
pub open spec fn after_update(table: Contents, key: u64) -> Contents {
    if table.contains_key(key) {
        table.insert(key, count_after(table[key]))
    } else {
        table
    }
}

/// A table that has one owner. Who wants several threads to use it puts
/// it behind a lock.
pub trait Table: View<V = Contents> + Sized {
    /// Whether the operations keep what they promise of the contents. They
    /// do unless the table hashes its keys with a hasher of which it is
    /// not known that it hashes equal keys alike.
    spec fn sound() -> bool;

    /// An empty table with room for `capacity` keys.
    fn with_capacity(capacity: usize) -> (table: Self)
        ensures
            table@ == Contents::empty(),
    ;

    /// Whether the table holds `key`.
    fn get(&self, key: &u64) -> (present: bool)
        ensures
            Self::sound() ==> present == found(self@, *key),
    ;

    /// Puts `key` in with a counter of 0; whether it was not there before.
    fn insert(&mut self, key: &u64) -> (fresh: bool)
        ensures
            Self::sound() ==> fresh == insert_reports(old(self)@, *key),
            Self::sound() ==> final(self)@ == after_insert(old(self)@, *key),
    ;

    /// Takes `key` out; whether it was there.
    fn remove(&mut self, key: &u64) -> (removed: bool)
        ensures
            Self::sound() ==> removed == remove_reports(old(self)@, *key),
            Self::sound() ==> final(self)@ == after_remove(old(self)@, *key),
    ;

    /// Moves the counter of `key` on by one if the table holds it; whether
    /// it does. A key that is not there is not put in.
    fn update(&mut self, key: &u64) -> (updated: bool)
        ensures
            Self::sound() ==> updated == update_reports(old(self)@, *key),
            Self::sound() ==> final(self)@ == after_update(old(self)@, *key),
    ;
}

/// A table that many threads use at once, each through a handle of its
/// own. The table keeps what it holds behind the handles: what one handle
/// finds depends on what the others do meanwhile, so the operations promise
/// nothing of their outcome. What each reports of the outcome that its map
/// hands back is what `reports_found`, `reports_new`, `reports_removed` and
/// `reports_updated` say.
pub trait Collection: Sized {
    /// The handle of one thread.
    type Handle: CollectionHandle;

    /// The handle is one of this table: it works on the map of this table.
    spec fn serves(&self, handle: &Self::Handle) -> bool;

    /// A table with room for `capacity` keys.
    fn with_capacity(capacity: usize) -> (table: Self);

    /// A handle on the table. All handles of one table share what it holds.
    fn pin(&self) -> (handle: Self::Handle)
        ensures
            self.serves(&handle),
    ;
}

/// The handle of one thread on a table that many threads share. It is only
/// a way to the table: no operation changes the handle itself, so a handle
/// of a table stays one of that table.
pub trait CollectionHandle: Sized {
    /// Looks `key` up; whether it was found.
    fn get(&mut self, key: &u64) -> (present: bool)
        ensures
            *final(self) == *old(self),
    ;

    /// Puts `key` in; whether it was not there before.
    fn insert(&mut self, key: &u64) -> (fresh: bool)
        ensures
            *final(self) == *old(self),
    ;

    /// Takes `key` out; whether it was there.
    fn remove(&mut self, key: &u64) -> (removed: bool)
        ensures
            *final(self) == *old(self),
    ;

    /// Moves the counter of `key` on by one; whether the key was there. A
    /// key that is not there is not put in.
    fn update(&mut self, key: &u64) -> (updated: bool)
        ensures
            *final(self) == *old(self),
    ;
}

/// The counter that a key gets when it is put in.
pub const FIRST_COUNT: u32 = 0;

/// What a map that holds `table` hands back for `key`: the counter under
/// it, if there is one.
pub open spec fn held(table: Contents, key: u64) -> Option<u32> {
    if table.contains_key(key) {
        Some(table[key])
    } else {
        None
    }
}

/// What a lookup reports when the map has handed this back for the key:
/// whether it has handed back anything.
pub fn reports_found<T>(handed: Option<T>) -> (present: bool)
    ensures
        present == handed.is_some(),
{
    handed.is_some()
}

/// What an insert reports when this stood under the key before, or stood
/// in the way: whether nothing did.
pub fn reports_new<T>(previous: Option<T>) -> (fresh: bool)
    ensures
        fresh == previous.is_none(),
{
    previous.is_none()
}

/// What a removal reports when the map has taken this out for the key:
/// whether it has taken out anything.
pub fn reports_removed<T>(taken: Option<T>) -> (removed: bool)
    ensures
        removed == taken.is_some(),
{
    taken.is_some()
}

/// What an update reports when the map has handed this back as the new
/// count of the key: whether there is a new count.
pub fn reports_updated<T>(count: Option<T>) -> (updated: bool)
    ensures
        updated == count.is_some(),
{
    count.is_some()
}

/// The count to write for an update when a lookup has handed this back for
/// the key: the count after the one found, and none where none was found.
pub fn count_to_write(handed: Option<u32>) -> (count: Option<u32>)
    ensures
        count == match handed {
            Some(found) => Some(count_after(found)),
            None => None::<u32>,
        },
{
    match handed {
        Some(found) => Some(next_count(found)),
        None => None,
    }
}

/// On what a map that holds `table` hands back, the reports are those of
/// an owned table: a lookup reports whether the key is there, an insert
/// whether it is new, a removal and an update whether it was there; and
/// the count to write is the one that an update leaves.
pub proof fn lemma_reports_are_those_of_a_table(table: Contents, key: u64)
    ensures
        held(table, key).is_some() == found(table, key),
        held(table, key).is_none() == insert_reports(table, key),
        held(table, key).is_some() == remove_reports(table, key),
        held(after_update(table, key), key).is_some() == update_reports(table, key),
        found(table, key) ==> held(after_update(table, key), key) == Some(
            count_after(table[key]),
        ),
        held(after_insert(table, key), key) == Some(FIRST_COUNT),
{
}

/// An update of a key that was never put in reports that it found
/// nothing, and does not put the key in: a lookup afterwards does not find
/// it either.
pub proof fn lemma_update_of_absent_key(table: Contents, key: u64)
    requires
        !found(table, key),
    ensures
        !update_reports(table, key),
        after_update(table, key) == table,
        !found(after_update(table, key), key),
{
}

/// An insert of a key that the table holds reports no new key. An insert
/// of a key that it does not hold reports a new key, and a lookup
/// afterwards finds it. Either way a second insert reports no new key and
/// leaves the table as the first one left it.
pub proof fn lemma_insert_reports_new_keys_once(table: Contents, key: u64)
    ensures
        found(table, key) ==> !insert_reports(table, key),
        !found(table, key) ==> insert_reports(table, key),
        found(after_insert(table, key), key),
        !insert_reports(after_insert(table, key), key),
        after_insert(after_insert(table, key), key) == after_insert(table, key),
{
}

/// An update neither adds a key nor takes one out.
pub proof fn lemma_update_keeps_keys(table: Contents, key: u64)
    ensures
        after_update(table, key).dom() == table.dom(),
{
}

/// A removal reports whether the key was there, and a lookup afterwards
/// does not find it.
pub proof fn lemma_remove_then_absent(table: Contents, key: u64)
    ensures
        remove_reports(table, key) == found(table, key),
        !found(after_remove(table, key), key),
{
}

/// No operation on one key changes what a lookup of another key finds.
pub proof fn lemma_other_keys_untouched(table: Contents, key: u64, other: u64)
    requires
        key != other,
    ensures
        found(after_insert(table, key), other) == found(table, other),
        found(after_remove(table, key), other) == found(table, other),
        found(after_update(table, key), other) == found(table, other),
{
}

} // verus!
