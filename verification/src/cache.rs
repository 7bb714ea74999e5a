//! The cache sweep: a read-heavy workload on a large table, for each of
//! nine tables on one to twelve threads.

use crate::bits::{ONE_FIFTH_BITS, THREE_HALVES_BITS};
use crate::driver::{CasePlan, Planned, Sweep};
use crate::workloads::{Mix, Workload, WorkloadKind};
use vstd::prelude::*;
use vstd::string::StringExecFns;

verus! {

/// The mix of the rapid-grow workload.
pub fn rg_mix() -> (mix: Mix)
    ensures
        mix == (Mix { read: 5, insert: 80, remove: 5, update: 10, upsert: 0 }),
        mix.valid(),
{
    Mix { read: 5, insert: 80, remove: 5, update: 10, upsert: 0 }
}

/// The mix of the exchange workload.
pub fn ex_mix() -> (mix: Mix)
    ensures
        mix == (Mix { read: 10, insert: 40, remove: 40, update: 10, upsert: 0 }),
        mix.valid(),
{
    Mix { read: 10, insert: 40, remove: 40, update: 10, upsert: 0 }
}

/// Mostly reads on a table for 2^24 keys that starts four fifths full, with
/// one operation for every five keys.
pub fn read_heavy(threads: usize) -> (workload: Workload)
    ensures
        workload == (Workload {
            threads,
            mix: Mix { read: 98, insert: 1, remove: 1, update: 0, upsert: 0 },
            initial_capacity_log2: 24,
            prefill_percent: 80,
            operations_bits: ONE_FIFTH_BITS,
        }),
{
    let mix = Mix { read: 98, insert: 1, remove: 1, update: 0, upsert: 0 };
    Workload::new(threads, mix, 24, 80, ONE_FIFTH_BITS)
}

/// Mostly inserts on a table for 2^24 keys that starts empty, with three
/// operations for every two keys.
pub fn rapid_grow(threads: usize) -> (workload: Workload)
    ensures
        workload == (Workload {
            threads,
            mix: Mix { read: 5, insert: 80, remove: 5, update: 10, upsert: 0 },
            initial_capacity_log2: 24,
            prefill_percent: 0,
            operations_bits: THREE_HALVES_BITS,
        }),
{
    Workload::new(threads, rg_mix(), 24, 0, THREE_HALVES_BITS)
}

/// As many inserts as removals on a table for 2^24 keys that starts four
/// fifths full, with three operations for every two keys.
pub fn exchange(threads: usize) -> (workload: Workload)
    ensures
        workload == (Workload {
            threads,
            mix: Mix { read: 10, insert: 40, remove: 40, update: 10, upsert: 0 },
            initial_capacity_log2: 24,
            prefill_percent: 80,
            operations_bits: THREE_HALVES_BITS,
        }),
{
    Workload::new(threads, ex_mix(), 24, 80, THREE_HALVES_BITS)
}

/// The workload of `kind` for the cache sweep.
pub open spec fn large(kind: WorkloadKind, threads: usize) -> Workload {
    Workload {
        threads,
        mix: match kind {
            WorkloadKind::ReadHeavy => Mix { read: 98, insert: 1, remove: 1, update: 0, upsert: 0 },
            WorkloadKind::RapidGrow => Mix {
                read: 5,
                insert: 80,
                remove: 5,
                update: 10,
                upsert: 0,
            },
            WorkloadKind::Exchange => Mix {
                read: 10,
                insert: 40,
                remove: 40,
                update: 10,
                upsert: 0,
            },
        },
        initial_capacity_log2: 24,
        prefill_percent: match kind {
            WorkloadKind::RapidGrow => 0,
            _ => 80,
        },
        operations_bits: match kind {
            WorkloadKind::ReadHeavy => ONE_FIFTH_BITS,
            _ => THREE_HALVES_BITS,
        },
    }
}

/// The kinds of table that the cache sweep measures.
#[derive(Clone, Copy, Debug, PartialEq, Eq, Structural)]
pub enum TableKind {
    RwLockBTreeMap,
    RwLockStdHashMap,
    Flurry,
    DashMap,
    Evmap,
}

/// Which hash function a table of the cache sweep uses.
#[derive(Clone, Copy, Debug, PartialEq, Eq, Structural)]
pub enum HasherKind {
    Std,
    Fx,
}

/// One table of the cache sweep: the name it is reported under, its kind,
/// and its hash function where it takes one.
#[derive(Clone, Copy, Debug)]
pub struct Case {
    pub name: &'static str,
    pub table: TableKind,
    pub hasher: Option<HasherKind>,
}

/// The tables of the cache sweep, in order.
pub open spec fn tables() -> Seq<(Seq<char>, TableKind, Option<HasherKind>)> {
    seq![
        ("RwLock<BTreeMap>"@, TableKind::RwLockBTreeMap, None),
        ("RwLock<StdHashMap>"@, TableKind::RwLockStdHashMap, Some(HasherKind::Std)),
        ("RwLock<FxHashMap>"@, TableKind::RwLockStdHashMap, Some(HasherKind::Fx)),
        ("FlurryTable"@, TableKind::Flurry, Some(HasherKind::Std)),
        ("FxFlurryTable"@, TableKind::Flurry, Some(HasherKind::Fx)),
        ("DashMapTable"@, TableKind::DashMap, Some(HasherKind::Std)),
        ("FxDashMapTable"@, TableKind::DashMap, Some(HasherKind::Fx)),
        ("EvmapTable"@, TableKind::Evmap, Some(HasherKind::Std)),
        ("FxEvmapTable"@, TableKind::Evmap, Some(HasherKind::Fx)),
    ]
}

/// The case says what the entry says.
pub open spec fn case_is(
    case: Case,
    entry: (Seq<char>, TableKind, Option<HasherKind>),
) -> bool {
    case.name@ == entry.0 && case.table == entry.1 && case.hasher == entry.2
}

/// The workloads of `kind` for every thread count from `first` to `last`.
pub open spec fn workloads_between(kind: WorkloadKind, first: usize, last: usize) -> Seq<
    Workload,
> {
    Seq::new(counts_between(first, last).len(), |i: int| large(kind, (first + i) as usize))
}

/// The largest thread count of the cache sweep.
pub const MAX_THREADS: usize = 12;

/// The thread counts from `first` to `last`, in order.
pub open spec fn counts_between(first: usize, last: usize) -> Seq<usize> {
    Seq::new(
        if first <= last {
            (last - first + 1) as nat
        } else {
            0
        },
        |i: int| (first + i) as usize,
    )
}

/// The thread counts from `first` to `last`, in order.
pub fn thread_range(first: usize, last: usize) -> (range: Vec<usize>)
    ensures
        range@ == counts_between(first, last),
{
    let mut range: Vec<usize> = Vec::new();
    if first <= last {
        let mut threads: usize = first;
        while threads < last
            invariant
                first <= threads <= last,
                range@.len() == threads - first,
                forall|i: int| 0 <= i < range@.len() ==> #[trigger] range@[i] == first + i,
            decreases last - threads,
        {
            range.push(threads);
            threads += 1;
        }
        range.push(last);
    }
    assert(range@ =~= counts_between(first, last));
    range
}

/// What is done for the table of this name: the line that announces it,
/// and for every thread count of `range`, in order, the workload that
/// `make_workload` makes for it.
pub fn run<M: Fn(usize) -> Workload>(name: &str, make_workload: M, range: &Vec<usize>) -> (plan:
    CasePlan)
    requires
        forall|i: int| 0 <= i < range@.len() ==> call_requires(make_workload, (#[trigger] range@[i],)),
    ensures
        plan.heading@ == "-- "@ + name@,
        !plan.skipped,
        plan.workloads@.len() == range@.len(),
        forall|i: int|
            0 <= i < range@.len() ==> call_ensures(
                make_workload,
                (range@[i],),
                #[trigger] plan.workloads@[i],
            ),
{
    let mut heading = String::from_str("-- ");
    heading.append(name);
    let mut workloads: Vec<Workload> = Vec::new();
    let mut at: usize = 0;
    while at < range.len()
        invariant
            at <= range@.len(),
            workloads@.len() == at,
            forall|i: int|
                0 <= i < range@.len() ==> call_requires(make_workload, (#[trigger] range@[i],)),
            forall|i: int|
                0 <= i < at ==> call_ensures(
                    make_workload,
                    (range@[i],),
                    #[trigger] workloads@[i],
                ),
        decreases range@.len() - at,
    {
        let workload = make_workload(range[at]);
        workloads.push(workload);
        at += 1;
    }
    CasePlan { heading, skipped: false, workloads }
}

fn cases() -> (all: Vec<Case>)
    ensures
        all@.len() == tables().len(),
        forall|i: int| 0 <= i < all@.len() ==> case_is(#[trigger] all@[i], tables()[i]),
{
    let std = Some(HasherKind::Std);
    let fx = Some(HasherKind::Fx);
    let mut all: Vec<Case> = Vec::new();
    all.push(Case { name: "RwLock<BTreeMap>", table: TableKind::RwLockBTreeMap, hasher: None });
    all.push(Case { name: "RwLock<StdHashMap>", table: TableKind::RwLockStdHashMap, hasher: std });
    all.push(Case { name: "RwLock<FxHashMap>", table: TableKind::RwLockStdHashMap, hasher: fx });
    all.push(Case { name: "FlurryTable", table: TableKind::Flurry, hasher: std });
    all.push(Case { name: "FxFlurryTable", table: TableKind::Flurry, hasher: fx });
    all.push(Case { name: "DashMapTable", table: TableKind::DashMap, hasher: std });
    all.push(Case { name: "FxDashMapTable", table: TableKind::DashMap, hasher: fx });
    all.push(Case { name: "EvmapTable", table: TableKind::Evmap, hasher: std });
    all.push(Case { name: "FxEvmapTable", table: TableKind::Evmap, hasher: fx });
    all
}

/// The cache sweep: each of the nine tables with the read-heavy workload on
/// one to twelve threads.
pub fn cache_task() -> (task: Sweep<Case>)
    ensures
        task.heading@ == "== cache"@,
        task.cases@.len() == tables().len(),
        forall|i: int|
            0 <= i < task.cases@.len() ==> {
                &&& case_is((#[trigger] task.cases@[i]).case, tables()[i])
                &&& task.cases@[i].plan.heading@ == "-- "@ + tables()[i].0
                &&& !task.cases@[i].plan.skipped
                &&& task.cases@[i].plan.workloads@ == workloads_between(
                    WorkloadKind::ReadHeavy,
                    1,
                    MAX_THREADS,
                )
            },
{
    let all = cases();
    let range = thread_range(1, MAX_THREADS);
    let mut planned: Vec<Planned<Case>> = Vec::new();
    let mut i: usize = 0;
    while i < all.len()
        invariant
            i <= all@.len(),
            range@ == counts_between(1, MAX_THREADS),
            all@.len() == tables().len(),
            forall|j: int| 0 <= j < all@.len() ==> case_is(#[trigger] all@[j], tables()[j]),
            planned@.len() == i,
            forall|j: int|
                0 <= j < i ==> {
                    &&& case_is((#[trigger] planned@[j]).case, tables()[j])
                    &&& planned@[j].plan.heading@ == "-- "@ + tables()[j].0
                    &&& !planned@[j].plan.skipped
                    &&& planned@[j].plan.workloads@ == workloads_between(
                        WorkloadKind::ReadHeavy,
                        1,
                        MAX_THREADS,
                    )
                },
        decreases all@.len() - i,
    {
        let one = all[i];
        let plan = run(one.name, read_heavy, &range);
        assert(plan.workloads@ =~= workloads_between(WorkloadKind::ReadHeavy, 1, MAX_THREADS));
        planned.push(Planned { case: one, plan });
        i += 1;
    }
    Sweep { heading: String::from_str("== cache"), cases: planned }
}

} // verus!
