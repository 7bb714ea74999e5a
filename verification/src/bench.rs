//! The plan of a sweep: which tables are measured under which names, on how
//! many threads, and what is skipped.

use crate::driver::{CasePlan, Planned, Sweep};
use crate::text::same_text;
use crate::workloads::{create, preset, Workload, WorkloadKind};
use vstd::prelude::*;
use vstd::string::StringExecFns;

verus! {

/// Which hash function the hashing tables use.
#[derive(Clone, Copy, Debug, PartialEq, Eq, Structural)]
pub enum HasherKind {
    Std,
    AHash,
}

/// The hash function that a name stands for, if it is the name of one.
pub open spec fn hasher_named(name: Seq<char>) -> Option<HasherKind> {
    if name == "std"@ {
        Some(HasherKind::Std)
    } else if name == "ahash"@ {
        Some(HasherKind::AHash)
    } else {
        None
    }
}

/// The hash function named `hasher`; any other text is refused.
pub fn parse_hasher_kind(hasher: &str) -> (outcome: Result<HasherKind, &'static str>)
    ensures
        match outcome {
            Ok(kind) => hasher_named(hasher@) == Some(kind),
            Err(message) => hasher_named(hasher@).is_none() && message@
                == "invalid hasher, must be one of 'std' or 'ahash'"@,
        },
{
    if same_text(hasher, "std") {
        Ok(HasherKind::Std)
    } else if same_text(hasher, "ahash") {
        Ok(HasherKind::AHash)
    } else {
        Err("invalid hasher, must be one of 'std' or 'ahash'")
    }
}

/// What a sweep is run with.
///
/// The multiple of operations, a floating-point number, is held as the 64
/// bits of its IEEE 754 encoding.
#[derive(Debug)]
pub struct Options {
    pub workload: WorkloadKind,
    pub operations_bits: u64,
    pub threads: Option<Vec<u32>>,
    pub hasher: HasherKind,
    pub gc_sleep_ms: u64,
    pub skip: Option<Vec<String>>,
    pub csv: bool,
    pub csv_no_headers: bool,
}

/// `name` is one of `names`.
pub open spec fn listed(names: Seq<String>, name: Seq<char>) -> bool {
    exists|i: int| 0 <= i < names.len() && (#[trigger] names[i])@ == name
}

/// The table of this name is left out of the sweep.
pub open spec fn skipped(options: Options, name: Seq<char>) -> bool {
    match options.skip {
        Some(names) => listed(names@, name),
        None => false,
    }
}

/// Whether the table of this name is left out of the sweep.
pub fn is_skipped(options: &Options, name: &str) -> (skip: bool)
    ensures
        skip == skipped(*options, name@),
{
    match &options.skip {
        None => false,
        Some(names) => {
            let mut i: usize = 0;
            while i < names.len()
                invariant
                    options.skip == Some(*names),
                    i <= names@.len(),
                    forall|j: int| 0 <= j < i ==> (#[trigger] names@[j])@ != name@,
                decreases names@.len() - i,
            {
                if same_text(names[i].as_str(), name) {
                    return true;
                }
                i += 1;
            }
            false
        },
    }
}

/// The thread counts from `step` up to `limit` in steps of `step`, after a
/// first run on one thread.
pub open spec fn stepped(limit: nat, step: nat) -> Seq<u32> {
    seq![1u32] + Seq::new(limit / step, |i: int| ((i + 1) * step) as u32)
}

/// The thread counts to measure on a machine of `cpus` cores: every count
/// up to ten cores, every second one up to sixteen, every fourth one above,
/// always after a run on one thread. Above sixteen cores the count of cores
/// is taken modulo 2^32.
pub open spec fn thread_steps(cpus: nat) -> Seq<u32> {
    if cpus <= 10 {
        Seq::new(cpus, |i: int| (i + 1) as u32)
    } else if cpus <= 16 {
        stepped(cpus, 2)
    } else {
        stepped(cpus % 0x1_0000_0000, 4)
    }
}

fn steps_up_to(limit: u32, step: u32) -> (threads: Vec<u32>)
    requires
        step > 0,
    ensures
        threads@ == stepped(limit as nat, step as nat),
{
    let mut threads: Vec<u32> = Vec::new();
    threads.push(1);
    let count: u32 = limit / step;
    let mut i: u32 = 0;
    while i < count
        invariant
            step > 0,
            count == limit / step,
            i <= count,
            threads@.len() == i + 1,
            threads@[0] == 1,
            forall|j: int| 0 <= j < i ==> #[trigger] threads@[j + 1] == ((j + 1) * step) as u32,
        decreases count - i,
    {
        assert((i + 1) * step <= limit) by (nonlinear_arith)
            requires
                i + 1 <= limit / step,
                step > 0,
        ;
        threads.push((i + 1) * step);
        i += 1;
    }
    threads
}

/// The thread counts to measure on a machine of `cpus` cores.
pub fn gen_threads(cpus: usize) -> (threads: Vec<u32>)
    ensures
        threads@ == thread_steps(cpus as nat),
{
    if cpus <= 10 {
        let mut threads: Vec<u32> = Vec::new();
        let limit: u32 = cpus as u32;
        let mut i: u32 = 0;
        while i < limit
            invariant
                i <= limit,
                limit <= 10,
                threads@.len() == i,
                forall|j: int| 0 <= j < i ==> #[trigger] threads@[j] == (j + 1) as u32,
            decreases limit - i,
        {
            threads.push(i + 1);
            i += 1;
        }
        threads
    } else if cpus <= 16 {
        steps_up_to(cpus as u32, 2)
    } else {
        let wide: u64 = cpus as u64;
        let low: u32 = #[verifier::truncate] (wide as u32);
        assert(low == wide % 0x1_0000_0000) by (bit_vector)
            requires
                low == wide as u32,
        ;
        steps_up_to(low, 4)
    }
}

/// `num_cpus::get`: the number of logical cores that this process may use.
/// It is at least 1, as the function promises; nothing else is claimed of
/// the number.
#[verifier::external_body]
fn logical_cpus() -> (cpus: usize)
    ensures
        cpus >= 1,
{
    num_cpus::get()
}

/// The thread counts of a sweep: those that the options name, and else
/// those that `thread_steps` gives for `cpus` cores.
pub open spec fn thread_list(options: Options, cpus: nat) -> Seq<u32> {
    match options.threads {
        Some(threads) => threads@,
        None => thread_steps(cpus),
    }
}

/// The thread counts of a sweep on a machine of `cpus` cores.
pub fn threads_on(options: &Options, cpus: usize) -> (threads: Vec<u32>)
    ensures
        threads@ == thread_list(*options, cpus as nat),
{
    match &options.threads {
        Some(threads) => threads.clone(),
        None => gen_threads(cpus),
    }
}

/// `crossbeam_epoch::Guard`, opaque here.
#[verifier::external_type_specification]
#[verifier::external_body]
pub struct ExGuard(::crossbeam_epoch::Guard);

/// `crossbeam_epoch::pin`: pins this thread to the current epoch of
/// reclamation. Nothing is claimed of the guard.
#[verifier::external_body]
fn pinned() -> ::crossbeam_epoch::Guard {
    ::crossbeam_epoch::pin()
}

/// `Guard::flush`: hands what this thread has put off to the collector.
#[verifier::external_body]
fn flush(guard: &::crossbeam_epoch::Guard) {
    guard.flush()
}

/// `Guard::repin`: lets go of the epoch and pins this thread anew.
#[verifier::external_body]
fn repin(guard: &mut ::crossbeam_epoch::Guard) {
    guard.repin()
}

/// How often the thread is pinned anew in one round of collection.
pub const REPINS: u32 = 32;

/// One round of collection between two measurements, so that what one run
/// has left to reclaim does not weigh on the next: this thread hands over
/// what it has put off and then lets go of its epoch and pins itself anew,
/// `REPINS` times. The result is the number of times it has done so. The
/// pause before the round is the caller's.
pub fn gc_cycle() -> (rounds: u32)
    ensures
        rounds == REPINS,
{
    let mut guard = pinned();
    flush(&guard);
    let mut rounds: u32 = 0;
    while rounds < REPINS
        invariant
            rounds <= REPINS,
        decreases REPINS - rounds,
    {
        repin(&mut guard);
        rounds += 1;
    }
    rounds
}

/// The line that announces a table: two dashes and its name, and a note
/// where the table is skipped.
pub open spec fn heading_of(name: Seq<char>, skip: bool) -> Seq<char> {
    if skip {
        "-- "@ + name + " [skipped]"@
    } else {
        "-- "@ + name
    }
}

/// The workloads of a sweep: the preset of the options, with their multiple
/// of operations, once for each thread count.
pub open spec fn workloads_of(options: Options, threads: Seq<u32>) -> Seq<Workload> {
    Seq::new(
        threads.len(),
        |i: int|
            preset(options.workload, options.operations_bits, threads[i]),
    )
}

/// `plan` is what is done for the table of this name on a machine of `cpus` cores.
pub open spec fn is_case_plan(
    plan: CasePlan,
    name: Seq<char>,
    options: Options,
    cpus: nat,
) -> bool {
    let skip = skipped(options, name);
    &&& plan.heading@ == heading_of(name, skip)
    &&& plan.skipped == skip
    &&& plan.workloads@ == if skip {
        Seq::<Workload>::empty()
    } else {
        workloads_of(options, thread_list(options, cpus))
    }
}

fn workloads_for(options: &Options, threads: &Vec<u32>) -> (workloads: Vec<Workload>)
    ensures
        workloads@ == workloads_of(*options, threads@),
{
    let mut workloads: Vec<Workload> = Vec::new();
    let mut i: usize = 0;
    while i < threads.len()
        invariant
            i <= threads@.len(),
            workloads@.len() == i,
            forall|j: int|
                0 <= j < i ==> #[trigger] workloads@[j] == workloads_of(*options, threads@)[j],
        decreases threads@.len() - i,
    {
        workloads.push(create(options.workload, options.operations_bits, threads[i]));
        i += 1;
    }
    workloads
}

fn heading_for(name: &str, skip: bool) -> (heading: String)
    ensures
        heading@ == heading_of(name@, skip),
{
    let mut heading = String::from_str("-- ");
    heading.append(name);
    if skip {
        heading.append(" [skipped]");
    }
    heading
}

/// What is done for the table of this name on a machine of `cpus` cores.
pub fn case_on(name: &str, options: &Options, cpus: usize) -> (plan: CasePlan)
    ensures
        is_case_plan(plan, name@, *options, cpus as nat),
{
    let skip = is_skipped(options, name);
    let heading = heading_for(name, skip);
    if skip {
        CasePlan { heading, skipped: true, workloads: Vec::new() }
    } else {
        let threads = threads_on(options, cpus);
        CasePlan { heading, skipped: false, workloads: workloads_for(options, &threads) }
    }
}

/// `plan` is what is done for the table of this name on a machine of some
/// number of cores, at least one.
pub open spec fn is_case_plan_here(plan: CasePlan, name: Seq<char>, options: Options) -> bool {
    exists|cpus: usize| cpus >= 1 && is_case_plan(plan, name, options, cpus as nat)
}

/// What is done for the table of this name on this machine. The number of
/// cores, which is at least one, is asked for only where the table is not
/// skipped and the options name no thread counts; the plan is the one for
/// that number. Where the number is not asked for, the plan is the same for
/// every number.
pub fn case(name: &str, options: &Options) -> (plan: CasePlan)
    ensures
        is_case_plan_here(plan, name@, *options),
        skipped(*options, name@) || options.threads.is_some() ==> forall|cpus: nat|
            is_case_plan(plan, name@, *options, cpus),
{
    if is_skipped(options, name) || options.threads.is_some() {
        let plan = case_on(name, options, 1);
        assert(is_case_plan(plan, name@, *options, 1usize as nat));
        plan
    } else {
        let cpus = logical_cpus();
        let plan = case_on(name, options, cpus);
        assert(is_case_plan(plan, name@, *options, cpus as nat));
        plan
    }
}

/// The kinds of table that a sweep measures.
#[derive(Clone, Copy, Debug, PartialEq, Eq, Structural)]
pub enum TableKind {
    CHashMap,
    CrossbeamSkipMap,
    DashMap,
    Flurry,
    Evmap,
    Contrie,
    SccMap,
    SccIndex,
}

/// One table of a sweep: the name it is reported under, its kind, and its
/// hash function where it takes one.
#[derive(Clone, Copy, Debug)]
pub struct Case {
    pub name: &'static str,
    pub table: TableKind,
    pub hasher: Option<HasherKind>,
}

/// The tables of a sweep, in order: first the two that bring their own
/// hashing or need none, then those that hash with `hasher`. Every name is
/// that of the table that is measured under it.
pub open spec fn sweep(hasher: HasherKind) -> Seq<(Seq<char>, TableKind, Option<HasherKind>)> {
    seq![
        ("CHashMap"@, TableKind::CHashMap, None),
        ("CrossbeamSkipMap"@, TableKind::CrossbeamSkipMap, None),
        ("DashMap"@, TableKind::DashMap, Some(hasher)),
        ("Flurry"@, TableKind::Flurry, Some(hasher)),
        ("Evmap"@, TableKind::Evmap, Some(hasher)),
        ("Contrie"@, TableKind::Contrie, Some(hasher)),
        ("SccMap"@, TableKind::SccMap, Some(hasher)),
        ("SccIndex"@, TableKind::SccIndex, Some(hasher)),
    ]
}

/// The case says what the entry says.
pub open spec fn case_is(
    case: Case,
    entry: (Seq<char>, TableKind, Option<HasherKind>),
) -> bool {
    case.name@ == entry.0 && case.table == entry.1 && case.hasher == entry.2
}

fn run_hasher_variant(hasher: HasherKind, cases: &mut Vec<Case>)
    requires
        old(cases)@.len() == 2,
    ensures
        final(cases)@.len() == 8,
        final(cases)@.take(2) == old(cases)@,
        forall|i: int| 2 <= i < 8 ==> case_is(#[trigger] final(cases)@[i], sweep(hasher)[i]),
{
    let with = Some(hasher);
    cases.push(Case { name: "DashMap", table: TableKind::DashMap, hasher: with });
    cases.push(Case { name: "Flurry", table: TableKind::Flurry, hasher: with });
    cases.push(Case { name: "Evmap", table: TableKind::Evmap, hasher: with });
    cases.push(Case { name: "Contrie", table: TableKind::Contrie, hasher: with });
    cases.push(Case { name: "SccMap", table: TableKind::SccMap, hasher: with });
    cases.push(Case { name: "SccIndex", table: TableKind::SccIndex, hasher: with });
}

/// The tables of a sweep with these options, in order.
pub fn run(options: &Options) -> (cases: Vec<Case>)
    ensures
        cases@.len() == sweep(options.hasher).len(),
        forall|i: int|
            0 <= i < cases@.len() ==> case_is(#[trigger] cases@[i], sweep(options.hasher)[i]),
{
    let mut cases: Vec<Case> = Vec::new();
    cases.push(Case { name: "CHashMap", table: TableKind::CHashMap, hasher: None });
    cases.push(Case { name: "CrossbeamSkipMap", table: TableKind::CrossbeamSkipMap, hasher: None });
    run_hasher_variant(options.hasher, &mut cases);
    assert forall|i: int| 0 <= i < cases@.len() implies case_is(
        #[trigger] cases@[i],
        sweep(options.hasher)[i],
    ) by {
        if i < 2 {
            assert(cases@[i] == cases@.take(2)[i]);
        }
    }
    cases
}

/// The sweep that the options ask for: the tables of `sweep` in order, each
/// with the plan that `case` makes under its name.
pub fn bench(options: &Options) -> (all: Sweep<Case>)
    ensures
        all.heading@ == "== "@ + options.workload.name_text(),
        all.cases@.len() == sweep(options.hasher).len(),
        forall|i: int|
            0 <= i < all.cases@.len() ==> {
                &&& case_is((#[trigger] all.cases@[i]).case, sweep(options.hasher)[i])
                &&& is_case_plan_here(all.cases@[i].plan, sweep(options.hasher)[i].0, *options)
            },
{
    let mut heading = String::from_str("== ");
    heading.append(options.workload.name());
    let cases = run(options);
    let mut planned: Vec<Planned<Case>> = Vec::new();
    let mut i: usize = 0;
    while i < cases.len()
        invariant
            i <= cases@.len(),
            cases@.len() == sweep(options.hasher).len(),
            forall|j: int|
                0 <= j < cases@.len() ==> case_is(#[trigger] cases@[j], sweep(options.hasher)[j]),
            planned@.len() == i,
            forall|j: int|
                0 <= j < i ==> {
                    &&& case_is((#[trigger] planned@[j]).case, sweep(options.hasher)[j])
                    &&& is_case_plan_here(planned@[j].plan, sweep(options.hasher)[j].0, *options)
                },
        decreases cases@.len() - i,
    {
        let one = cases[i];
        let plan = case(one.name, options);
        let ghost before = planned@;
        planned.push(Planned { case: one, plan });
        proof {
            assert(planned@[i as int].plan == plan);
            assert forall|j: int| 0 <= j < i implies #[trigger] planned@[j] == before[j] by {}
        }
        i += 1;
    }
    Sweep { heading, cases: planned }
}

} // verus!
