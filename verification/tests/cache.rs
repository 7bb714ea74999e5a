use conc_map_bench::bits::{ONE_FIFTH_BITS, THREE_HALVES_BITS};
use conc_map_bench::cache::{
    cache_task, ex_mix, exchange, rapid_grow, read_heavy, rg_mix, run, thread_range, HasherKind,
    TableKind, MAX_THREADS,
};
use conc_map_bench::workloads::{Mix, Workload};

#[test]
fn mixes_of_the_cache_program() {
    assert_eq!(rg_mix(), Mix { read: 5, insert: 80, remove: 5, update: 10, upsert: 0 });
    assert_eq!(ex_mix(), Mix { read: 10, insert: 40, remove: 40, update: 10, upsert: 0 });
    assert!(rg_mix().is_valid());
    assert!(ex_mix().is_valid());
}

#[test]
fn workloads_of_the_cache_program() {
    assert_eq!(
        read_heavy(5),
        Workload {
            threads: 5,
            mix: Mix { read: 98, insert: 1, remove: 1, update: 0, upsert: 0 },
            initial_capacity_log2: 24,
            prefill_percent: 80,
            operations_bits: ONE_FIFTH_BITS,
        }
    );
    assert_eq!(
        rapid_grow(5),
        Workload {
            threads: 5,
            mix: rg_mix(),
            initial_capacity_log2: 24,
            prefill_percent: 0,
            operations_bits: THREE_HALVES_BITS,
        }
    );
    assert_eq!(
        exchange(5),
        Workload {
            threads: 5,
            mix: ex_mix(),
            initial_capacity_log2: 24,
            prefill_percent: 80,
            operations_bits: THREE_HALVES_BITS,
        }
    );
    assert_eq!(read_heavy(12).check(), Ok(()));
    assert_eq!(read_heavy(1).log_len(), 3_355_443);
}

#[test]
fn thread_range_counts_from_first_to_last() {
    assert_eq!(thread_range(1, 12), (1..=12).collect::<Vec<usize>>());
    assert_eq!(thread_range(3, 3), vec![3]);
    assert_eq!(thread_range(3, 2), Vec::<usize>::new());
    assert_eq!(thread_range(usize::MAX - 1, usize::MAX), vec![usize::MAX - 1, usize::MAX]);
}

#[test]
fn run_plans_every_thread_count_of_the_range() {
    let plan = run("RwLock<BTreeMap>", read_heavy, &thread_range(1, 12));
    assert_eq!(plan.heading, "-- RwLock<BTreeMap>");
    assert!(!plan.skipped);
    assert_eq!(plan.workloads.len(), 12);
    for (i, workload) in plan.workloads.iter().enumerate() {
        assert_eq!(*workload, read_heavy(i + 1));
    }
    let picked = run("x", exchange, &vec![8, 2, 2]);
    assert_eq!(picked.workloads, vec![exchange(8), exchange(2), exchange(2)]);
    let none = run("x", exchange, &Vec::new());
    assert_eq!(none.heading, "-- x");
    assert!(none.workloads.is_empty());
    let doubled = run("x", |threads| rapid_grow(2 * threads), &vec![1, 3]);
    assert_eq!(doubled.workloads, vec![rapid_grow(2), rapid_grow(6)]);
}

#[test]
fn cache_task_measures_nine_tables_on_one_to_twelve_threads() {
    let task = cache_task();
    assert_eq!(task.heading, "== cache");
    let expected = [
        ("RwLock<BTreeMap>", TableKind::RwLockBTreeMap, None),
        ("RwLock<StdHashMap>", TableKind::RwLockStdHashMap, Some(HasherKind::Std)),
        ("RwLock<FxHashMap>", TableKind::RwLockStdHashMap, Some(HasherKind::Fx)),
        ("FlurryTable", TableKind::Flurry, Some(HasherKind::Std)),
        ("FxFlurryTable", TableKind::Flurry, Some(HasherKind::Fx)),
        ("DashMapTable", TableKind::DashMap, Some(HasherKind::Std)),
        ("FxDashMapTable", TableKind::DashMap, Some(HasherKind::Fx)),
        ("EvmapTable", TableKind::Evmap, Some(HasherKind::Std)),
        ("FxEvmapTable", TableKind::Evmap, Some(HasherKind::Fx)),
    ];
    assert_eq!(task.cases.len(), expected.len());
    assert_eq!(MAX_THREADS, 12);
    for (planned, (name, table, hasher)) in task.cases.iter().zip(expected) {
        assert_eq!(planned.case.name, name);
        assert_eq!(planned.case.table, table);
        assert_eq!(planned.case.hasher, hasher);
        assert_eq!(planned.plan.heading, format!("-- {}", name));
        assert_eq!(planned.plan.workloads.len(), 12);
        for (i, workload) in planned.plan.workloads.iter().enumerate() {
            assert_eq!(*workload, read_heavy(i + 1));
        }
    }
}
