use conc_map_bench::plot::{
    group_data, maxima, plot, plot_latency, plot_throughput, position_of, series_color, Color,
    Group, Options,
};
use conc_map_bench::record::{Record, Span};

fn record(name: &str, threads: u32, throughput: f64, latency_ns: u64) -> Record {
    Record::new(
        name,
        threads,
        1000 * threads as u64,
        Span { secs: 1, subsec_nanos: 0 },
        throughput.to_bits(),
        Span::from_nanos(latency_ns),
    )
}

fn options() -> Options {
    Options {
        dir: "out/charts".to_string(),
        name: "Exchange".to_string(),
        width: 640,
        height: 480,
        latency_limit_ns: 2000,
    }
}

fn sample() -> Vec<Record> {
    vec![
        record("Flurry", 1, 2.0e6, 500),
        record("DashMap", 1, 3.0e6, 300),
        record("Flurry", 2, 3.5e6, 570),
        record("CHashMap", 1, 1.0e6, 1000),
        record("DashMap", 2, 5.5e6, 360),
        record("DashMap", 4, 9.0e6, 440),
    ]
}

#[test]
fn records_are_grouped_by_name_in_the_order_of_the_names() {
    let groups = group_data(sample());
    let names: Vec<_> = groups.iter().map(|group| group.name.as_str()).collect();
    assert_eq!(names, vec!["CHashMap", "DashMap", "Flurry"]);
    let threads: Vec<Vec<u32>> = groups
        .iter()
        .map(|group| group.records.iter().map(|record| record.threads).collect())
        .collect();
    assert_eq!(threads, vec![vec![1], vec![1, 2, 4], vec![1, 2]]);
    for group in &groups {
        assert!(group.records.iter().all(|record| record.name == group.name));
    }
}

#[test]
fn grouping_nothing_gives_no_group() {
    assert!(group_data(Vec::new()).is_empty());
}

#[test]
fn groups_agree_with_an_ordered_map() {
    let names = ["b", "a", "", "B", "ab", "a", "é", "b", "aa", "", "z"];
    let records: Vec<Record> =
        names.iter().enumerate().map(|(i, name)| record(name, i as u32, 1.0, 1)).collect();
    let mut expected = std::collections::BTreeMap::<String, Vec<u32>>::new();
    for (i, name) in names.iter().enumerate() {
        expected.entry(name.to_string()).or_default().push(i as u32);
    }
    let groups = group_data(records);
    let found: Vec<(String, Vec<u32>)> = groups
        .iter()
        .map(|group| (group.name.clone(), group.records.iter().map(|r| r.threads).collect()))
        .collect();
    assert_eq!(found, expected.into_iter().collect::<Vec<_>>());
}

#[test]
fn position_among_sorted_groups() {
    let groups = group_data(sample());
    assert_eq!(position_of(&groups, "DashMap"), (1, true));
    assert_eq!(position_of(&groups, "CHashMap"), (0, true));
    assert_eq!(position_of(&groups, "Flurry"), (2, true));
    assert_eq!(position_of(&groups, "A"), (0, false));
    assert_eq!(position_of(&groups, "Contrie"), (1, false));
    assert_eq!(position_of(&groups, "Evmap"), (2, false));
    assert_eq!(position_of(&groups, "Z"), (3, false));
}

#[test]
fn colours_come_in_turn() {
    let expected = [
        Color::Blue,
        Color::Red,
        Color::Green,
        Color::Magenta,
        Color::Cyan,
        Color::Black,
        Color::Yellow,
    ];
    for index in 0..30usize {
        assert_eq!(series_color(index), expected[index % 7]);
    }
    assert_eq!(series_color(7), Color::Blue);
    assert_eq!(series_color(usize::MAX), expected[usize::MAX % 7]);
}

#[test]
fn largest_of_each_kind() {
    let groups = group_data(sample());
    let top = maxima(&groups);
    assert_eq!(top.threads, 4);
    assert_eq!(top.latency, Span::from_nanos(1000));
    assert_eq!(f64::from_bits(top.throughput_bits), 9.0e6);
    let none = maxima(&Vec::new());
    assert_eq!(none.threads, 0);
    assert_eq!(none.latency, Span { secs: 0, subsec_nanos: 0 });
    assert_eq!(none.throughput_bits, 0);
}

#[test]
fn largest_throughput_leaves_out_what_is_no_amount() {
    let records = vec![
        record("a", 1, f64::NAN, 1),
        record("a", 2, -5.0, 1),
        record("a", 3, 2.5, 1),
        record("b", 4, -f64::NAN, 1),
        record("b", 5, f64::NEG_INFINITY, 1),
        record("b", 6, 0.5, 1),
    ];
    let top = maxima(&group_data(records));
    assert_eq!(f64::from_bits(top.throughput_bits), 2.5);
    let endless = vec![record("a", 1, 7.0, 1), record("a", 2, f64::INFINITY, 1)];
    assert_eq!(f64::from_bits(maxima(&group_data(endless)).throughput_bits), f64::INFINITY);
    let below = vec![record("a", 1, -7.0, 1), record("a", 2, -0.0, 1)];
    assert_eq!(maxima(&group_data(below)).throughput_bits, 0);
}

#[test]
fn largest_agrees_with_a_fold() {
    let records = sample();
    let threads = records.iter().map(|r| r.threads).fold(0, u32::max);
    let throughput =
        records.iter().map(|r| f64::from_bits(r.throughput_bits)).fold(0f64, f64::max);
    let latency = records.iter().map(|r| r.latency.as_nanos()).fold(0, u128::max);
    let top = maxima(&group_data(records));
    assert_eq!(top.threads, threads);
    assert_eq!(f64::from_bits(top.throughput_bits), throughput);
    assert_eq!(top.latency.as_nanos(), latency);
}

#[test]
fn latency_chart() {
    let groups = group_data(sample());
    let chart = plot_latency(&options(), &groups);
    assert_eq!(chart.path, "out/charts/Exchange.latency.svg");
    assert_eq!(chart.caption, "Exchange: Latency");
    assert_eq!((chart.width, chart.height), (640, 480));
    assert_eq!(chart.x_max, 4);
    assert_eq!(chart.y_max, 1000);
    assert_eq!(chart.series.len(), 3);
    assert_eq!(chart.series[0].label, "CHashMap");
    assert_eq!(chart.series[0].color, Color::Blue);
    assert_eq!(chart.series[0].points, vec![(1, 1000)]);
    assert_eq!(chart.series[1].label, "DashMap");
    assert_eq!(chart.series[1].color, Color::Red);
    assert_eq!(chart.series[1].points, vec![(1, 300), (2, 360), (4, 440)]);
    assert_eq!(chart.series[2].label, "Flurry");
    assert_eq!(chart.series[2].color, Color::Green);
    assert_eq!(chart.series[2].points, vec![(1, 500), (2, 570)]);
}

#[test]
fn latency_chart_stops_at_the_limit() {
    let mut records = sample();
    records.push(record("Slow", 8, 1.0, 50_000));
    let groups = group_data(records);
    let chart = plot_latency(&options(), &groups);
    assert_eq!(chart.y_max, 2000);
    assert_eq!(chart.x_max, 8);
    assert_eq!(chart.series[3].points, vec![(8, 50_000)]);
    let wide = Options { latency_limit_ns: 100_000, ..options() };
    assert_eq!(plot_latency(&wide, &groups).y_max, 50_000);
    let none = Options { latency_limit_ns: 0, ..options() };
    assert_eq!(plot_latency(&none, &groups).y_max, 0);
}

#[test]
fn throughput_chart() {
    let groups = group_data(sample());
    let chart = plot_throughput(&options(), &groups);
    assert_eq!(chart.path, "out/charts/Exchange.throughput.svg");
    assert_eq!(chart.caption, "Exchange: Throughput");
    assert_eq!((chart.width, chart.height), (640, 480));
    assert_eq!(chart.x_max, 4);
    assert_eq!(f64::from_bits(chart.y_max), 9.0e6);
    assert_eq!(chart.series.len(), 3);
    let points: Vec<(u32, f64)> =
        chart.series[1].points.iter().map(|&(x, y)| (x, f64::from_bits(y))).collect();
    assert_eq!(points, vec![(1, 3.0e6), (2, 5.5e6), (4, 9.0e6)]);
    assert_eq!(chart.series[2].label, "Flurry");
    assert_eq!(chart.series[2].color, Color::Green);
}

#[test]
fn eighth_series_is_blue_again() {
    let names = ["a", "b", "c", "d", "e", "f", "g", "h"];
    let records: Vec<Record> = names.iter().map(|name| record(name, 1, 1.0, 1)).collect();
    let chart = plot_latency(&options(), &group_data(records));
    assert_eq!(chart.series[6].color, Color::Yellow);
    assert_eq!(chart.series[7].color, Color::Blue);
    assert_eq!(chart.series[7].label, "h");
}

#[test]
fn charts_of_no_records() {
    let groups: Vec<Group> = Vec::new();
    let chart = plot_latency(&options(), &groups);
    assert_eq!((chart.x_max, chart.y_max), (0, 0));
    assert!(chart.series.is_empty());
    let chart = plot_throughput(&options(), &groups);
    assert_eq!((chart.x_max, chart.y_max), (0, 0));
    assert!(chart.series.is_empty());
}

#[test]
fn both_charts_from_the_records() {
    let charts = plot(&options(), sample());
    assert_eq!(charts.groups.len(), 3);
    assert_eq!(charts.throughput.path, "out/charts/Exchange.throughput.svg");
    assert_eq!(charts.latency.path, "out/charts/Exchange.latency.svg");
    assert_eq!(charts.throughput.series.len(), 3);
    assert_eq!(charts.latency.series[1].points, vec![(1, 300), (2, 360), (4, 440)]);
}
