//! One measurement as it is reported: the record kept in memory and the row
//! that is written out, with time spans as whole nanoseconds.

use vstd::prelude::*;

verus! {

/// Nanoseconds in one second.
pub const NANOS_PER_SEC: u32 = 1_000_000_000;

/// A length of time: whole seconds and the nanoseconds beyond them.
#[derive(Clone, Copy, Debug, PartialEq, Eq, Structural)]
pub struct Span {
    pub secs: u64,
    pub subsec_nanos: u32,
}

impl Span {
    /// The nanoseconds beyond the whole seconds stay below one second.
    pub open spec fn wf(&self) -> bool {
        self.subsec_nanos < NANOS_PER_SEC
    }

    /// The span's length in nanoseconds.
    pub open spec fn nanos(&self) -> nat {
        self.secs as nat * (NANOS_PER_SEC as nat) + self.subsec_nanos as nat
    }

    /// The span's length in nanoseconds.
    pub fn as_nanos(&self) -> (n: u128)
        requires
            self.wf(),
        ensures
            n == self.nanos(),
    {
        let secs: u128 = self.secs as u128;
        let sub: u128 = self.subsec_nanos as u128;
        assert(secs * 1_000_000_000 <= 0xffff_ffff_ffff_ffff * 1_000_000_000) by (nonlinear_arith)
            requires
                secs <= 0xffff_ffff_ffff_ffff,
        ;
        secs * 1_000_000_000 + sub
    }

    /// The span of `n` nanoseconds.
    pub fn from_nanos(n: u64) -> (span: Span)
        ensures
            span == span_of(n),
            span.wf(),
            span.nanos() == n,
    {
        let secs: u64 = n / 1_000_000_000;
        let sub: u64 = n % 1_000_000_000;
        proof {
            lemma_span_of(n);
        }
        Span { secs, subsec_nanos: sub as u32 }
    }

    /// Whether this span is strictly longer than `other`.
    pub fn exceeds(&self, other: &Span) -> (longer: bool)
        requires
            self.wf(),
            other.wf(),
        ensures
            longer == (self.nanos() > other.nanos()),
    {
        proof {
            if self.secs < other.secs {
                lemma_order(*self, *other);
            } else if other.secs < self.secs {
                lemma_order(*other, *self);
            }
        }
        self.secs > other.secs || (self.secs == other.secs && self.subsec_nanos
            > other.subsec_nanos)
    }
}

/// Spans are ordered by their seconds first.
pub proof fn lemma_order(a: Span, b: Span)
    requires
        a.wf(),
        b.wf(),
        a.secs < b.secs,
    ensures
        a.nanos() < b.nanos(),
{
    assert(a.secs as nat * (NANOS_PER_SEC as nat) + (NANOS_PER_SEC as nat) <= b.secs as nat * (
    NANOS_PER_SEC as nat)) by (nonlinear_arith)
        requires
            a.secs < b.secs,
    ;
}

/// Two well-formed spans of the same length are the same span.
pub proof fn lemma_nanos_injective(a: Span, b: Span)
    requires
        a.wf(),
        b.wf(),
        a.nanos() == b.nanos(),
    ensures
        a == b,
{
    if a.secs < b.secs {
        lemma_order(a, b);
    } else if b.secs < a.secs {
        lemma_order(b, a);
    }
}

/// What `serialize` writes for a span of `nanos` nanoseconds: the low 64 bits.
pub open spec fn timestamp_of(nanos: nat) -> nat {
    nanos % 0x1_0000_0000_0000_0000
}

/// The number written for a span: its nanoseconds, cut to 64 bits.
pub fn serialize(value: &Span) -> (stamp: u64)
    requires
        value.wf(),
    ensures
        stamp == timestamp_of(value.nanos()),
{
    let n: u128 = value.as_nanos();
    let low: u64 = #[verifier::truncate] (n as u64);
    assert(low as u128 == n % 0x1_0000_0000_0000_0000) by (bit_vector)
        requires
            low == n as u64,
    ;
    low
}

/// The span that a written number stands for.
pub fn deserialize(stamp: u64) -> (value: Span)
    ensures
        value == span_of(stamp),
        value.wf(),
        value.nanos() == stamp,
{
    Span::from_nanos(stamp)
}

/// A span that fits in 64 bits of nanoseconds is read back as it was written.
pub proof fn lemma_timestamp_round_trip(value: Span, back: Span)
    requires
        value.wf(),
        value.nanos() <= u64::MAX,
        back.wf(),
        back.nanos() == timestamp_of(value.nanos()),
    ensures
        back == value,
{
    lemma_nanos_injective(value, back);
}

/// One measurement of one backend at one thread count.
///
/// The throughput, a floating-point number of operations per second, is held
/// as the 64 bits of its IEEE 754 encoding.
#[derive(Debug)]
pub struct Record {
    pub name: String,
    pub total_ops: u64,
    pub threads: u32,
    pub spent: Span,
    pub throughput_bits: u64,
    pub latency: Span,
}

/// A record as it is written out: both spans as numbers of nanoseconds.
#[derive(Debug)]
pub struct Row {
    pub name: String,
    pub total_ops: u64,
    pub threads: u32,
    pub spent: u64,
    pub throughput_bits: u64,
    pub latency: u64,
}

/// The span that `deserialize` reads from a written number.
pub open spec fn span_of(stamp: u64) -> Span {
    Span {
        secs: stamp / (NANOS_PER_SEC as u64),
        subsec_nanos: (stamp % (NANOS_PER_SEC as u64)) as u32,
    }
}

impl Record {
    /// Both spans are well formed.
    pub open spec fn wf(&self) -> bool {
        self.spent.wf() && self.latency.wf()
    }

    /// Both spans fit in 64 bits of nanoseconds, so that writing loses nothing.
    pub open spec fn fits_row(&self) -> bool {
        self.spent.nanos() <= u64::MAX && self.latency.nanos() <= u64::MAX
    }

    /// The row that `to_row` gives for this record.
    pub open spec fn row(&self) -> Row {
        Row {
            name: self.name,
            total_ops: self.total_ops,
            threads: self.threads,
            spent: timestamp_of(self.spent.nanos()) as u64,
            throughput_bits: self.throughput_bits,
            latency: timestamp_of(self.latency.nanos()) as u64,
        }
    }

    /// The record of a run of `name` on `threads` threads.
    pub fn new(
        name: &str,
        threads: u32,
        total_ops: u64,
        spent: Span,
        throughput_bits: u64,
        latency: Span,
    ) -> (record: Record)
        ensures
            record.name@ == name@,
            record.total_ops == total_ops,
            record.threads == threads,
            record.spent == spent,
            record.throughput_bits == throughput_bits,
            record.latency == latency,
    {
        Record { name: name.to_owned(), total_ops, threads, spent, throughput_bits, latency }
    }

    /// The record of a run without operations: nothing was done and no time was spent.
    pub fn idle(name: &str, threads: u32) -> (record: Record)
        ensures
            record.name@ == name@,
            record.total_ops == 0,
            record.threads == threads,
            record.spent == (Span { secs: 0, subsec_nanos: 0 }),
            record.throughput_bits == 0,
            record.latency == (Span { secs: 0, subsec_nanos: 0 }),
            record.wf(),
    {
        let none = Span { secs: 0, subsec_nanos: 0 };
        Record::new(name, threads, 0, none, 0, none)
    }

    /// A copy of this record.
    pub fn duplicate(&self) -> (copy: Record)
        ensures
            copy == *self,
    {
        Record {
            name: self.name.clone(),
            total_ops: self.total_ops,
            threads: self.threads,
            spent: self.spent,
            throughput_bits: self.throughput_bits,
            latency: self.latency,
        }
    }

    /// The row to write for this record.
    pub fn to_row(&self) -> (row: Row)
        requires
            self.wf(),
        ensures
            row == self.row(),
    {
        Row {
            name: self.name.clone(),
            total_ops: self.total_ops,
            threads: self.threads,
            spent: serialize(&self.spent),
            throughput_bits: self.throughput_bits,
            latency: serialize(&self.latency),
        }
    }

    /// The record that a row stands for.
    pub fn from_row(row: Row) -> (record: Record)
        ensures
            record.wf(),
            record.fits_row(),
            record == row.record(),
    {
        Record {
            name: row.name,
            total_ops: row.total_ops,
            threads: row.threads,
            spent: deserialize(row.spent),
            throughput_bits: row.throughput_bits,
            latency: deserialize(row.latency),
        }
    }
}

impl Row {
    /// The record that `Record::from_row` gives for this row.
    pub open spec fn record(&self) -> Record {
        Record {
            name: self.name,
            total_ops: self.total_ops,
            threads: self.threads,
            spent: span_of(self.spent),
            throughput_bits: self.throughput_bits,
            latency: span_of(self.latency),
        }
    }
}

/// Writing a record and reading the row back gives the same record: name,
/// operation count, thread count, throughput, and both spans to the
/// nanosecond, as long as each span fits in 64 bits of nanoseconds.
pub proof fn lemma_record_round_trip(record: Record)
    requires
        record.wf(),
        record.fits_row(),
    ensures
        record.row().record() == record,
{
    let row = record.row();
    lemma_span_of(row.spent);
    lemma_span_of(row.latency);
    lemma_timestamp_round_trip(record.spent, span_of(row.spent));
    lemma_timestamp_round_trip(record.latency, span_of(row.latency));
}

/// Reading a row and writing the record again gives the same row.
pub proof fn lemma_row_round_trip(row: Row)
    ensures
        row.record().wf(),
        row.record().fits_row(),
        row.record().row() == row,
{
    lemma_span_of(row.spent);
    lemma_span_of(row.latency);
}

/// The span read from a number is well formed and as long as the number says.
pub proof fn lemma_span_of(stamp: u64)
    ensures
        span_of(stamp).wf(),
        span_of(stamp).nanos() == stamp,
{
    let whole = stamp / 1_000_000_000;
    let rest = stamp % 1_000_000_000;
    assert(whole * 1_000_000_000 + rest == stamp);
    assert(span_of(stamp).secs == whole);
    assert(span_of(stamp).subsec_nanos == rest);
}

} // verus!
