use conc_map_bench::workloads::{
    create, exchange, rapid_grow, read_heavy, ConfigError, Mix, RunPlan, Workload, WorkloadKind,
    MAX_TOTAL_OPS,
};

fn start(threads: usize, mix: Mix) -> Workload {
    Workload::new(threads, mix, 25, 0, 0.75f64.to_bits())
}

fn read_only() -> Mix {
    Mix { read: 100, insert: 0, remove: 0, update: 0, upsert: 0 }
}

#[test]
fn workload_kind_is_read_from_its_name() {
    assert_eq!(WorkloadKind::from_str("ReadHeavy"), Ok(WorkloadKind::ReadHeavy));
    assert_eq!(WorkloadKind::from_str("Exchange"), Ok(WorkloadKind::Exchange));
    assert_eq!(WorkloadKind::from_str("RapidGrow"), Ok(WorkloadKind::RapidGrow));
    assert_eq!(WorkloadKind::from_str("readheavy"), Err("unknown workload"));
    assert_eq!(WorkloadKind::from_str(""), Err("unknown workload"));
    assert_eq!(WorkloadKind::from_str("ReadHeavy "), Err("unknown workload"));
}

#[test]
fn workload_kind_name_is_read_back() {
    for kind in [WorkloadKind::ReadHeavy, WorkloadKind::Exchange, WorkloadKind::RapidGrow] {
        assert_eq!(WorkloadKind::from_str(kind.name()), Ok(kind));
        assert_eq!(format!("{:?}", kind), kind.name());
    }
}

#[test]
fn mix_is_valid_when_it_adds_up_to_a_hundred() {
    assert!(read_only().is_valid());
    assert!(Mix { read: 20, insert: 20, remove: 20, update: 20, upsert: 20 }.is_valid());
    assert!(!Mix { read: 0, insert: 0, remove: 0, update: 0, upsert: 0 }.is_valid());
    assert!(!Mix { read: 99, insert: 0, remove: 0, update: 0, upsert: 0 }.is_valid());
    assert!(!Mix { read: 50, insert: 50, remove: 1, update: 0, upsert: 0 }.is_valid());
    assert!(!Mix { read: 255, insert: 101, remove: 0, update: 0, upsert: 0 }.is_valid());
}

#[test]
fn new_workload_has_the_settings_given() {
    let workload = Workload::new(3, read_only(), 12, 34, 5.5f64.to_bits());
    assert_eq!(workload.threads, 3);
    assert_eq!(workload.mix, read_only());
    assert_eq!(workload.initial_capacity_log2, 12);
    assert_eq!(workload.prefill_percent, 34);
    assert_eq!(f64::from_bits(workload.operations_bits), 5.5);
}

#[test]
fn settings_change_one_thing_each() {
    let workload = start(3, read_only());
    assert_eq!(
        workload.initial_capacity_log2(12),
        Workload { initial_capacity_log2: 12, ..workload }
    );
    assert_eq!(workload.prefill_percent(55), Workload { prefill_percent: 55, ..workload });
    assert_eq!(
        workload.operations(2.5f64.to_bits()),
        Workload { operations_bits: 2.5f64.to_bits(), ..workload }
    );
}

#[test]
fn presets_of_the_sweep() {
    assert_eq!(
        read_heavy(7, 11),
        Workload {
            threads: 7,
            mix: Mix { read: 98, insert: 1, remove: 1, update: 0, upsert: 0 },
            initial_capacity_log2: 20,
            prefill_percent: 80,
            operations_bits: 11,
        }
    );
    assert_eq!(
        rapid_grow(2, 12),
        Workload {
            threads: 2,
            mix: Mix { read: 5, insert: 80, remove: 5, update: 10, upsert: 0 },
            initial_capacity_log2: 20,
            prefill_percent: 0,
            operations_bits: 12,
        }
    );
    assert_eq!(
        exchange(1, 13),
        Workload {
            threads: 1,
            mix: Mix { read: 10, insert: 40, remove: 40, update: 10, upsert: 0 },
            initial_capacity_log2: 20,
            prefill_percent: 80,
            operations_bits: 13,
        }
    );
}

#[test]
fn create_sets_the_multiple_of_operations() {
    let bits = 1.0f64.to_bits();
    assert_eq!(
        create(WorkloadKind::ReadHeavy, bits, 4),
        read_heavy(4, bits)
    );
    assert_eq!(
        create(WorkloadKind::Exchange, bits, 4),
        exchange(4, bits)
    );
    assert_eq!(
        create(WorkloadKind::RapidGrow, bits, 4),
        rapid_grow(4, bits)
    );
}

#[test]
fn presets_can_be_run() {
    for kind in [WorkloadKind::ReadHeavy, WorkloadKind::Exchange, WorkloadKind::RapidGrow] {
        for threads in [1, 2, 12, 64] {
            let workload = create(kind, 1.0f64.to_bits(), threads);
            assert_eq!(workload.check(), Ok(()));
            assert!(workload.mix.is_valid());
        }
    }
}

#[test]
fn check_names_what_is_wrong_first() {
    let good = start(2, read_only()).initial_capacity_log2(10);
    assert_eq!(good.check(), Ok(()));
    assert_eq!(Workload { threads: 0, ..good }.check(), Err(ConfigError::NoThreads));
    let none = Mix { read: 0, insert: 0, remove: 0, update: 0, upsert: 0 };
    assert_eq!(Workload { mix: none, ..good }.check(), Err(ConfigError::MixTotal));
    let short = Mix { read: 98, insert: 1, remove: 0, update: 0, upsert: 0 };
    assert_eq!(Workload { mix: short, ..good }.check(), Err(ConfigError::MixTotal));
    let bits = usize::BITS as u8;
    assert_eq!(good.initial_capacity_log2(bits).check(), Err(ConfigError::Capacity));
    assert_eq!(good.initial_capacity_log2(255).check(), Err(ConfigError::Capacity));
    assert_eq!(good.prefill_percent(101).check(), Err(ConfigError::Prefill));
    assert_eq!(good.prefill_percent(100).check(), Ok(()));
    assert_eq!(good.operations((-1.0f64).to_bits()).check(), Err(ConfigError::Operations));
    assert_eq!(good.operations(f64::NAN.to_bits()).check(), Err(ConfigError::Operations));
    assert_eq!(good.operations(f64::INFINITY.to_bits()).check(), Err(ConfigError::Operations));
    assert_eq!(good.operations(0.0f64.to_bits()).check(), Ok(()));
    assert_eq!(good.operations((-0.0f64).to_bits()).check(), Ok(()));
    assert_eq!(
        good.operations(1e300f64.to_bits()).check(),
        Err(ConfigError::TooManyOperations)
    );
    // Several things wrong: the first in order is named.
    let bad = Workload { threads: 0, mix: none, ..good }.prefill_percent(200);
    assert_eq!(bad.check(), Err(ConfigError::NoThreads));
    assert_eq!(Workload { threads: 1, ..bad }.check(), Err(ConfigError::MixTotal));
}

#[test]
fn operations_are_counted_up_to_two_to_the_53() {
    let one = start(1, read_only()).initial_capacity_log2(53).operations(1.0f64.to_bits());
    assert_eq!(one.check(), Ok(()));
    assert_eq!(one.total_ops(), MAX_TOTAL_OPS);
    assert_eq!(Workload { threads: 2, ..one }.check(), Err(ConfigError::TooManyOperations));
    assert_eq!(one.initial_capacity_log2(54).check(), Err(ConfigError::TooManyOperations));
}

#[test]
fn capacity_is_a_power_of_two() {
    let workload = start(1, read_only());
    assert_eq!(workload.initial_capacity_log2(0).capacity(), 1);
    assert_eq!(workload.initial_capacity_log2(10).capacity(), 1024);
    assert_eq!(workload.initial_capacity_log2(20).capacity(), 1_048_576);
    assert_eq!(workload.capacity(), 1 << 25);
    let top = (usize::BITS - 1) as u8;
    assert_eq!(workload.initial_capacity_log2(top).capacity(), 1 << top);
}

#[test]
fn prefill_is_a_share_of_the_capacity() {
    let workload = start(1, read_only()).initial_capacity_log2(20);
    assert_eq!(workload.prefill_percent(80).prefill(), 838_860);
    assert_eq!(workload.prefill_percent(50).prefill(), 524_288);
    assert_eq!(workload.prefill_percent(1).prefill(), 10_485);
    assert_eq!(read_heavy(4, 0).prefill(), 838_860);
}

#[test]
fn prefill_of_nothing_and_of_everything() {
    for log2 in [0u8, 1, 10, 20, 25] {
        let workload = start(1, read_only()).initial_capacity_log2(log2);
        assert_eq!(workload.prefill_percent(0).prefill(), 0);
        assert_eq!(workload.prefill_percent(100).prefill(), 1usize << log2);
    }
}

#[test]
fn log_length_is_a_multiple_of_the_capacity() {
    let workload = start(4, read_only()).initial_capacity_log2(10);
    assert_eq!(workload.operations(1.0f64.to_bits()).log_len(), 1024);
    assert_eq!(workload.operations(1.5f64.to_bits()).log_len(), 1536);
    assert_eq!(workload.operations(0.2f64.to_bits()).log_len(), 204);
    assert_eq!(workload.log_len(), 768);
    assert_eq!(workload.operations(0.0f64.to_bits()).log_len(), 0);
    assert_eq!(workload.operations(0.0001f64.to_bits()).log_len(), 0);
}

#[test]
fn total_is_the_sum_of_the_logs() {
    for threads in 1..=16usize {
        for multiple in [0.0f64, 0.2, 0.75, 1.0, 1.5, 3.3] {
            let workload = start(threads, read_only())
                .initial_capacity_log2(10)
                .operations(multiple.to_bits());
            let sum: u64 = (0..threads).map(|_| workload.log_len()).sum();
            assert_eq!(workload.total_ops(), sum);
        }
    }
}

#[test]
fn run_plan_of_a_workload() {
    let workload = start(4, read_only()).initial_capacity_log2(10);
    assert_eq!(
        workload.operations(1.0f64.to_bits()).run_plan(),
        RunPlan::Run { capacity: 1024, prefill: 0, total: 4096 }
    );
    assert_eq!(workload.run_plan(), RunPlan::Run { capacity: 1024, prefill: 0, total: 3072 });
    assert_eq!(
        workload.prefill_percent(80).run_plan(),
        RunPlan::Run { capacity: 1024, prefill: 819, total: 3072 }
    );
    assert_eq!(workload.operations(0.0f64.to_bits()).run_plan(), RunPlan::Idle);
    assert_eq!(workload.operations(0.0005f64.to_bits()).run_plan(), RunPlan::Idle);
    assert_eq!(
        workload.operations((-1.0f64).to_bits()).run_plan(),
        RunPlan::Refused(ConfigError::Operations)
    );
    assert_eq!(
        Workload { threads: 0, ..workload }.run_plan(),
        RunPlan::Refused(ConfigError::NoThreads)
    );
}

#[test]
fn every_error_says_what_is_wrong() {
    let all = [
        ConfigError::NoThreads,
        ConfigError::MixTotal,
        ConfigError::Capacity,
        ConfigError::Prefill,
        ConfigError::Operations,
        ConfigError::TooManyOperations,
    ];
    for (i, one) in all.iter().enumerate() {
        assert!(!one.message().is_empty());
        for other in &all[..i] {
            assert_ne!(one.message(), other.message());
        }
    }
    assert_eq!(ConfigError::NoThreads.message(), "there is no thread to run the workload");
    assert_eq!(ConfigError::MixTotal.message(), "the shares of the mix do not add up to 100");
}
