use conc_map_bench::record::{Record, Row, Span};

fn written(row: &Row) -> Vec<u8> {
    let mut writer = csv::WriterBuilder::new().has_headers(false).from_writer(Vec::new());
    writer
        .write_record(&[
            row.name.clone(),
            row.total_ops.to_string(),
            row.threads.to_string(),
            row.spent.to_string(),
            f64::from_bits(row.throughput_bits).to_string(),
            row.latency.to_string(),
        ])
        .unwrap();
    writer.into_inner().unwrap()
}

fn read(bytes: &[u8]) -> Row {
    let mut reader = csv::ReaderBuilder::new().has_headers(false).from_reader(bytes);
    let line = reader.records().next().unwrap().unwrap();
    Row {
        name: line[0].to_string(),
        total_ops: line[1].parse().unwrap(),
        threads: line[2].parse().unwrap(),
        spent: line[3].parse().unwrap(),
        throughput_bits: line[4].parse::<f64>().unwrap().to_bits(),
        latency: line[5].parse().unwrap(),
    }
}

fn survives(record: Record) {
    let back = Record::from_row(read(&written(&record.to_row())));
    assert_eq!(back.name, record.name);
    assert_eq!(back.total_ops, record.total_ops);
    assert_eq!(back.threads, record.threads);
    assert_eq!(back.spent, record.spent);
    assert_eq!(back.throughput_bits, record.throughput_bits);
    assert_eq!(back.latency, record.latency);
}

#[test]
fn record_survives_writing_and_reading() {
    survives(Record::new(
        "DashMap",
        16,
        16 << 20,
        Span { secs: 3, subsec_nanos: 141_592_653 },
        5_340_721.337_f64.to_bits(),
        Span { secs: 0, subsec_nanos: 187 },
    ));
    survives(Record::idle("Evmap", 1));
    survives(Record::new(
        "a name, with \"marks\"",
        u32::MAX,
        u64::MAX,
        Span::from_nanos(u64::MAX),
        f64::MAX.to_bits(),
        Span::from_nanos(1),
    ));
    survives(Record::new(
        "tiny",
        1,
        1,
        Span { secs: 0, subsec_nanos: 1 },
        5e-324f64.to_bits(),
        Span { secs: 0, subsec_nanos: 0 },
    ));
}

#[test]
fn span_of_more_than_64_bits_of_nanoseconds_does_not_survive() {
    let long = Span { secs: 18_446_744_074, subsec_nanos: 0 };
    let record = Record::new("slow", 1, 1, long, 1.0f64.to_bits(), Span::from_nanos(5));
    let back = Record::from_row(read(&written(&record.to_row())));
    assert_ne!(back.spent, record.spent);
    assert_eq!(back.latency, record.latency);
}
