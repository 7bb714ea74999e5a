use conc_map_bench::bench::{bench, HasherKind, Options};
use conc_map_bench::cache::cache_task;
use conc_map_bench::driver::{Action, CasePlan, Driver, Outcome, Planned, Sweep};
use conc_map_bench::workloads::{create, Workload, WorkloadKind};

fn workload(threads: u32) -> Workload {
    create(WorkloadKind::Exchange, 1.0f64.to_bits(), threads)
}

fn plan(name: &str, skipped: bool, threads: &[u32]) -> Planned<u8> {
    Planned {
        case: name.len() as u8,
        plan: CasePlan {
            heading: format!("-- {}", name),
            skipped,
            workloads: threads.iter().map(|&n| workload(n)).collect(),
        },
    }
}

fn sweep() -> Sweep<u8> {
    Sweep {
        heading: "== Exchange".to_string(),
        cases: vec![
            plan("a", false, &[1, 2]),
            plan("bb", true, &[]),
            plan("ccc", false, &[]),
            plan("dddd", false, &[4, 5, 6]),
        ],
    }
}

fn said(action: Action<u8>) -> String {
    match action {
        Action::Announce(line) => format!("say {}", line),
        Action::Blank => "blank".to_string(),
        Action::Measure(case, workload) => format!("measure {} on {}", case, workload.threads),
        Action::Collect => "collect".to_string(),
        Action::Finish => "finish".to_string(),
    }
}

// Every measurement of the table with the given number gets the given
// outcome, in turn; all others are done.
fn course(outcomes: &[(u8, Outcome)]) -> Vec<String> {
    let mut left = outcomes.to_vec();
    let mut driver = Driver::new(sweep());
    let mut last = Outcome::Done;
    let mut all = Vec::new();
    while !driver.is_finished() {
        let action = driver.next(last);
        last = Outcome::Done;
        if let Action::Measure(case, _) = &action {
            if let Some(at) = left.iter().position(|(table, _)| table == case) {
                last = left.remove(at).1;
            }
        }
        all.push(said(action));
        assert!(all.len() < 100);
    }
    all
}

#[test]
fn course_of_a_sweep_where_every_run_is_done() {
    assert_eq!(
        course(&[]),
        vec![
            "say == Exchange",
            "say -- a",
            "measure 1 on 1",
            "collect",
            "measure 1 on 2",
            "collect",
            "blank",
            "say -- bb",
            "say -- ccc",
            "blank",
            "say -- dddd",
            "measure 4 on 4",
            "collect",
            "measure 4 on 5",
            "collect",
            "measure 4 on 6",
            "collect",
            "blank",
            "finish",
        ]
    );
}

#[test]
fn workload_that_is_refused_is_passed_over() {
    assert_eq!(
        course(&[(4, Outcome::Done), (4, Outcome::Refused)]),
        vec![
            "say == Exchange",
            "say -- a",
            "measure 1 on 1",
            "collect",
            "measure 1 on 2",
            "collect",
            "blank",
            "say -- bb",
            "say -- ccc",
            "blank",
            "say -- dddd",
            "measure 4 on 4",
            "collect",
            "measure 4 on 5",
            "measure 4 on 6",
            "collect",
            "blank",
            "finish",
        ]
    );
    let last_refused = course(&[(1, Outcome::Done), (1, Outcome::Refused)]);
    assert_eq!(
        last_refused[..7],
        ["say == Exchange", "say -- a", "measure 1 on 1", "collect", "measure 1 on 2", "blank", "say -- bb"]
    );
}

#[test]
fn run_that_breaks_down_ends_its_table_only() {
    assert_eq!(
        course(&[(1, Outcome::Failed), (4, Outcome::Done), (4, Outcome::Failed)]),
        vec![
            "say == Exchange",
            "say -- a",
            "measure 1 on 1",
            "collect",
            "blank",
            "say -- bb",
            "say -- ccc",
            "blank",
            "say -- dddd",
            "measure 4 on 4",
            "collect",
            "measure 4 on 5",
            "collect",
            "blank",
            "finish",
        ]
    );
}

#[test]
fn sweep_without_tables_is_announced_and_over() {
    let mut driver = Driver::new(Sweep::<u8> { heading: "== none".to_string(), cases: vec![] });
    assert!(!driver.is_finished());
    assert_eq!(said(driver.next(Outcome::Done)), "say == none");
    assert_eq!(said(driver.next(Outcome::Done)), "finish");
    assert!(driver.is_finished());
    assert_eq!(said(driver.next(Outcome::Failed)), "finish");
    assert!(driver.is_finished());
}

#[test]
fn course_of_the_sweeps_of_the_library() {
    let options = Options {
        workload: WorkloadKind::RapidGrow,
        operations_bits: 1.0f64.to_bits(),
        threads: Some(vec![1, 2, 4]),
        hasher: HasherKind::AHash,
        gc_sleep_ms: 0,
        skip: Some(vec!["Flurry".to_string(), "CHashMap".to_string()]),
        csv: false,
        csv_no_headers: false,
    };
    let mut driver = Driver::new(bench(&options));
    let mut measured = Vec::new();
    let mut steps = 0;
    while !driver.is_finished() {
        if let Action::Measure(case, workload) = driver.next(Outcome::Done) {
            measured.push((case.name, workload.threads));
        }
        steps += 1;
    }
    let names = ["CrossbeamSkipMap", "DashMap", "Evmap", "Contrie", "SccMap", "SccIndex"];
    let expected: Vec<(&str, usize)> =
        names.iter().flat_map(|&name| [(name, 1), (name, 2), (name, 4)]).collect();
    assert_eq!(measured, expected);
    // The sweep, eight tables, six empty lines, eighteen measurements with
    // their rounds of collection, and the end.
    assert_eq!(steps, 1 + 8 + 6 + 18 * 2 + 1);

    let mut driver = Driver::new(cache_task());
    let mut runs = 0;
    while !driver.is_finished() {
        if let Action::Measure(_, _) = driver.next(Outcome::Done) {
            runs += 1;
        }
    }
    assert_eq!(runs, 9 * 12);
}
