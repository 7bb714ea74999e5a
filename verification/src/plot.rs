//! Preparation of recorded measurements for charts: grouping by backend,
//! axis bounds, colours and the series to draw.

use crate::bits::INFINITY_BITS;
use crate::record::{serialize, timestamp_of, Record, Span};
use crate::text::{
    bytes_of, lemma_bytes_injective, lemma_precedes_irreflexive, lemma_precedes_total,
    lemma_precedes_transitive, precedes, same_text, text_precedes,
};
use vstd::prelude::*;
use vstd::string::StringExecFns;

verus! {

/// The records of one backend, in the order in which they were read.
///
/// The groups of a grouping stand in a vector, in the order of their names.
/// An ordered map from names to records would keep that order by itself,
/// but of a map keyed by strings nothing can be proved here, not even that
/// a name put in is found again.
#[derive(Debug)]
pub struct Group {
    pub name: String,
    pub records: Vec<Record>,
}

/// The records among `records` that carry `name`, in their order.
pub open spec fn records_named(records: Seq<Record>, name: Seq<char>) -> Seq<Record>
    decreases records.len(),
{
    if records.len() == 0 {
        Seq::empty()
    } else {
        let before = records_named(records.drop_last(), name);
        if records.last().name@ == name {
            before.push(records.last())
        } else {
            before
        }
    }
}

/// The groups stand in the strict order of their names' bytes.
pub open spec fn sorted_by_name(groups: Seq<Group>) -> bool {
    forall|i: int, j: int|
        0 <= i < j < groups.len() ==> precedes(
            bytes_of(#[trigger] groups[i].name@),
            bytes_of(#[trigger] groups[j].name@),
        )
}

/// `groups` is the grouping of `records` by name: one group for each name
/// that occurs, the groups in the order of their names, and in each group
/// the records of that name in the order of `records`.
pub open spec fn groups_of(groups: Seq<Group>, records: Seq<Record>) -> bool {
    &&& sorted_by_name(groups)
    &&& forall|i: int|
        0 <= i < groups.len() ==> {
            &&& (#[trigger] groups[i]).records@ == records_named(records, groups[i].name@)
            &&& groups[i].records@.len() > 0
        }
    &&& forall|k: int|
        0 <= k < records.len() ==> exists|i: int|
            0 <= i < groups.len() && (#[trigger] groups[i]).name@ == (#[trigger] records[k]).name@
}

/// Appending a record extends the records of its own name and no others.
pub proof fn lemma_named_push(records: Seq<Record>, record: Record, name: Seq<char>)
    ensures
        records_named(records.push(record), name) == if record.name@ == name {
            records_named(records, name).push(record)
        } else {
            records_named(records, name)
        },
{
    assert(records.push(record).drop_last() =~= records);
}

/// Where no record carries a name, no record is found under it.
pub proof fn lemma_named_none(records: Seq<Record>, name: Seq<char>)
    requires
        forall|k: int| 0 <= k < records.len() ==> (#[trigger] records[k]).name@ != name,
    ensures
        records_named(records, name).len() == 0,
    decreases records.len(),
{
    if records.len() > 0 {
        lemma_named_none(records.drop_last(), name);
    }
}

/// In sorted groups no name occurs twice.
pub proof fn lemma_sorted_distinct(groups: Seq<Group>, i: int, j: int)
    requires
        sorted_by_name(groups),
        0 <= i < groups.len(),
        0 <= j < groups.len(),
        i != j,
    ensures
        groups[i].name@ != groups[j].name@,
{
    lemma_precedes_irreflexive(bytes_of(groups[i].name@));
}

/// The records found under a name carry that name.
pub proof fn lemma_named_have_name(records: Seq<Record>, name: Seq<char>, j: int)
    requires
        0 <= j < records_named(records, name).len(),
    ensures
        records_named(records, name)[j].name@ == name,
    decreases records.len(),
{
    if records.len() > 0 {
        let front = records.drop_last();
        if j < records_named(front, name).len() {
            lemma_named_have_name(front, name, j);
        }
    }
}

/// The records found under a name are records of the whole.
pub proof fn lemma_named_subset(records: Seq<Record>, name: Seq<char>, j: int)
    requires
        0 <= j < records_named(records, name).len(),
    ensures
        exists|k: int| 0 <= k < records.len() && records[k] == records_named(records, name)[j],
    decreases records.len(),
{
    if records.len() > 0 {
        let front = records.drop_last();
        if j < records_named(front, name).len() {
            lemma_named_subset(front, name, j);
        }
    }
}

proof fn lemma_name_in_other(g: Seq<Group>, h: Seq<Group>, records: Seq<Record>, i: int)
    requires
        groups_of(g, records),
        groups_of(h, records),
        0 <= i < g.len(),
    ensures
        exists|k: int| 0 <= k < h.len() && (#[trigger] h[k]).name@ == g[i].name@,
{
    let name = g[i].name@;
    lemma_named_subset(records, name, 0);
    lemma_named_have_name(records, name, 0);
    let r = choose|r: int| 0 <= r < records.len() && records[r] == records_named(records, name)[0];
}

proof fn lemma_same_names(g: Seq<Group>, h: Seq<Group>, records: Seq<Record>, i: int)
    requires
        groups_of(g, records),
        groups_of(h, records),
        0 <= i < g.len(),
    ensures
        i < h.len(),
        h[i].name@ == g[i].name@,
    decreases i,
{
    lemma_name_in_other(g, h, records, i);
    let k = choose|k: int| 0 <= k < h.len() && (#[trigger] h[k]).name@ == g[i].name@;
    if k < i {
        lemma_same_names(g, h, records, k);
        lemma_sorted_distinct(g, k, i);
    }
    lemma_name_in_other(h, g, records, i);
    let m = choose|m: int| 0 <= m < g.len() && (#[trigger] g[m]).name@ == h[i].name@;
    if m < i {
        lemma_same_names(g, h, records, m);
        lemma_sorted_distinct(h, m, i);
    }
    if k > i && m > i {
        let a = bytes_of(g[i].name@);
        let b = bytes_of(h[i].name@);
        lemma_precedes_transitive(a, b, a);
        lemma_precedes_irreflexive(a);
    } else if k > i {
        lemma_sorted_distinct(h, i, k);
    }
}

/// The grouping of records is one: two groupings of the same records have
/// the same names in the same places, with the same records under each.
pub proof fn lemma_grouping_is_unique(g: Seq<Group>, h: Seq<Group>, records: Seq<Record>)
    requires
        groups_of(g, records),
        groups_of(h, records),
    ensures
        g.len() == h.len(),
        forall|i: int|
            0 <= i < g.len() ==> (#[trigger] g[i]).name@ == h[i].name@ && g[i].records@
                == h[i].records@,
{
    if g.len() > 0 {
        lemma_same_names(g, h, records, g.len() - 1);
    }
    if h.len() > 0 {
        lemma_same_names(h, g, records, h.len() - 1);
    }
    assert forall|i: int| 0 <= i < g.len() implies (#[trigger] g[i]).name@ == h[i].name@
        && g[i].records@ == h[i].records@ by {
        lemma_same_names(g, h, records, i);
    }
}

/// Where `name` belongs among sorted groups: the index of the first group
/// whose name does not come before it, and whether that group carries it.
pub fn position_of(groups: &Vec<Group>, name: &str) -> (at: (usize, bool))
    requires
        sorted_by_name(groups@),
    ensures
        at.0 <= groups@.len(),
        forall|j: int|
            0 <= j < at.0 ==> precedes(bytes_of((#[trigger] groups@[j]).name@), bytes_of(name@)),
        at.1 ==> at.0 < groups@.len() && groups@[at.0 as int].name@ == name@,
        !at.1 ==> forall|j: int|
            at.0 <= j < groups@.len() ==> precedes(
                bytes_of(name@),
                bytes_of((#[trigger] groups@[j]).name@),
            ),
{
    let mut i: usize = 0;
    while i < groups.len()
        invariant
            sorted_by_name(groups@),
            i <= groups@.len(),
            forall|j: int|
                0 <= j < i ==> precedes(bytes_of((#[trigger] groups@[j]).name@), bytes_of(name@)),
        decreases groups@.len() - i,
    {
        let here = groups[i].name.as_str();
        if same_text(here, name) {
            return (i, true);
        }
        if !text_precedes(here, name) {
            proof {
                let n = bytes_of(name@);
                let h = bytes_of(groups@[i as int].name@);
                lemma_precedes_total(h, n);
                if h == n {
                    lemma_bytes_injective(groups@[i as int].name@, name@);
                }
                assert forall|j: int| i <= j < groups@.len() implies precedes(
                    n,
                    bytes_of((#[trigger] groups@[j]).name@),
                ) by {
                    if j > i {
                        lemma_precedes_transitive(n, h, bytes_of(groups@[j].name@));
                    }
                }
            }
            return (i, false);
        }
        i += 1;
    }
    (i, false)
}

/// In a grouping no group is empty, and the records of the groups have
/// well-formed spans where all the records have.
pub proof fn lemma_groups_are_no_worse(groups: Seq<Group>, records: Seq<Record>)
    requires
        groups_of(groups, records),
    ensures
        none_empty(groups),
        records_wf(records) ==> all_wf(groups),
{
    if records_wf(records) {
        assert forall|i: int, j: int|
            0 <= i < groups.len() && 0 <= j < groups[i].records@.len() implies (
        #[trigger] groups[i].records@[j]).wf() by {
            lemma_named_subset(records, groups[i].name@, j);
        }
    }
}

/// Groups the records by name, as `groups_of` describes.
pub fn group_data(records: Vec<Record>) -> (groups: Vec<Group>)
    ensures
        groups_of(groups@, records@),
        none_empty(groups@),
        records_wf(records@) ==> all_wf(groups@),
{
    let mut groups: Vec<Group> = Vec::new();
    let mut k: usize = 0;
    while k < records.len()
        invariant
            k <= records@.len(),
            groups_of(groups@, records@.take(k as int)),
        decreases records@.len() - k,
    {
        let record = records[k].duplicate();
        let ghost seen = records@.take(k as int);
        let ghost before = groups@;
        proof {
            assert(records@.take(k as int + 1) =~= seen.push(record));
        }
        let at = position_of(&groups, record.name.as_str());
        if at.1 {
            let mut group = groups.remove(at.0);
            group.records.push(record);
            groups.insert(at.0, group);
            proof {
                let i = at.0 as int;
                assert forall|j: int| 0 <= j < groups@.len() implies {
                    &&& (#[trigger] groups@[j]).records@ == records_named(
                        seen.push(record),
                        groups@[j].name@,
                    )
                    &&& groups@[j].records@.len() > 0
                } by {
                    lemma_named_push(seen, record, groups@[j].name@);
                    if j != i {
                        lemma_sorted_distinct(before, i, j);
                    }
                }
                assert forall|n: int| 0 <= n < seen.push(record).len() implies exists|j: int|
                    0 <= j < groups@.len() && (#[trigger] groups@[j]).name@ == (
                    #[trigger] seen.push(record)[n]).name@ by {
                    if n < seen.len() {
                        let j = choose|j: int|
                            0 <= j < before.len() && (#[trigger] before[j]).name@ == seen[n].name@;
                        assert(groups@[j].name@ == before[j].name@);
                    } else {
                        assert(groups@[i].name@ == record.name@);
                    }
                }
            }
        } else {
            let mut first: Vec<Record> = Vec::new();
            let name = record.name.clone();
            first.push(record);
            groups.insert(at.0, Group { name, records: first });
            proof {
                let i = at.0 as int;
                let fresh = record.name@;
                assert forall|n: int| 0 <= n < seen.len() implies (#[trigger] seen[n]).name@
                    != fresh by {
                    let j = choose|j: int|
                        0 <= j < before.len() && (#[trigger] before[j]).name@ == seen[n].name@;
                    lemma_precedes_irreflexive(bytes_of(fresh));
                }
                lemma_named_none(seen, fresh);
                assert forall|j: int| 0 <= j < groups@.len() implies {
                    &&& (#[trigger] groups@[j]).records@ == records_named(
                        seen.push(record),
                        groups@[j].name@,
                    )
                    &&& groups@[j].records@.len() > 0
                } by {
                    lemma_named_push(seen, record, groups@[j].name@);
                    if j != i {
                        lemma_sorted_distinct(groups@, i, j);
                    }
                }
                assert forall|n: int| 0 <= n < seen.push(record).len() implies exists|j: int|
                    0 <= j < groups@.len() && (#[trigger] groups@[j]).name@ == (
                    #[trigger] seen.push(record)[n]).name@ by {
                    if n < seen.len() {
                        let j = choose|j: int|
                            0 <= j < before.len() && (#[trigger] before[j]).name@ == seen[n].name@;
                        if j < i {
                            assert(groups@[j] == before[j]);
                        } else {
                            assert(groups@[j + 1] == before[j]);
                        }
                    } else {
                        assert(groups@[i].name@ == record.name@);
                    }
                }
            }
        }
        k += 1;
    }
    assert(records@.take(k as int) =~= records@);
    proof {
        lemma_groups_are_no_worse(groups@, records@);
    }
    groups
}

/// What a chart is drawn from: where it goes, its size, and how long a
/// latency may be before it is cut off.
#[derive(Debug)]
pub struct Options {
    pub dir: String,
    pub name: String,
    pub width: u32,
    pub height: u32,
    pub latency_limit_ns: u64,
}

/// The colours of the series, in the order in which they are handed out.
#[derive(Clone, Copy, Debug, PartialEq, Eq, Structural)]
pub enum Color {
    Blue,
    Red,
    Green,
    Magenta,
    Cyan,
    Black,
    Yellow,
}

/// The colour of the series at `index`: the seven colours in turn, over and over.
pub open spec fn color_at(index: nat) -> Color {
    let turn = index % 7;
    if turn == 0 {
        Color::Blue
    } else if turn == 1 {
        Color::Red
    } else if turn == 2 {
        Color::Green
    } else if turn == 3 {
        Color::Magenta
    } else if turn == 4 {
        Color::Cyan
    } else if turn == 5 {
        Color::Black
    } else {
        Color::Yellow
    }
}

/// The colour of the series at `index`.
pub fn series_color(index: usize) -> (color: Color)
    ensures
        color == color_at(index as nat),
{
    let turn: usize = index % 7;
    if turn == 0 {
        Color::Blue
    } else if turn == 1 {
        Color::Red
    } else if turn == 2 {
        Color::Green
    } else if turn == 3 {
        Color::Magenta
    } else if turn == 4 {
        Color::Cyan
    } else if turn == 5 {
        Color::Black
    } else {
        Color::Yellow
    }
}

/// The largest of the values, and 0 where there is none.
pub open spec fn largest(values: Seq<nat>) -> nat
    decreases values.len(),
{
    if values.len() == 0 {
        0
    } else {
        let before = largest(values.drop_last());
        if values.last() > before {
            values.last()
        } else {
            before
        }
    }
}

/// One more value raises the largest only if it is larger.
pub proof fn lemma_largest_push(values: Seq<nat>, value: nat)
    ensures
        largest(values.push(value)) == if value > largest(values) {
            value
        } else {
            largest(values)
        },
{
    assert(values.push(value).drop_last() =~= values);
}

/// No value is above the largest, and the largest is one of the values or 0.
pub proof fn lemma_largest_is_max(values: Seq<nat>)
    ensures
        forall|i: int| 0 <= i < values.len() ==> #[trigger] values[i] <= largest(values),
        largest(values) == 0 || exists|i: int|
            0 <= i < values.len() && #[trigger] values[i] == largest(values),
    decreases values.len(),
{
    if values.len() > 0 {
        let front = values.drop_last();
        lemma_largest_is_max(front);
        assert forall|i: int| 0 <= i < values.len() implies #[trigger] values[i] <= largest(
            values,
        ) by {
            if i < front.len() {
                assert(front[i] == values[i]);
            }
        }
        if largest(values) != 0 {
            if values.last() > largest(front) {
            } else {
                let i = choose|i: int|
                    0 <= i < front.len() && #[trigger] front[i] == largest(front);
            }
        }
    }
}

/// All records of all groups, group after group.
pub open spec fn all_records(groups: Seq<Group>) -> Seq<Record>
    decreases groups.len(),
{
    if groups.len() == 0 {
        Seq::empty()
    } else {
        all_records(groups.drop_last()) + groups.last().records@
    }
}

/// Every record of every group has well-formed spans.
pub open spec fn all_wf(groups: Seq<Group>) -> bool {
    forall|i: int, j: int|
        0 <= i < groups.len() && 0 <= j < groups[i].records@.len() ==> (
        #[trigger] groups[i].records@[j]).wf()
}

/// What a throughput counts for when the largest is sought: its bits where
/// it is zero, positive or infinite, and nothing where it is negative or not
/// a number. Among the former the bits grow with the number.
pub open spec fn throughput_rank(bits: u64) -> nat {
    if bits <= INFINITY_BITS {
        bits as nat
    } else {
        0
    }
}

/// The thread counts of the records, in order.
pub open spec fn thread_counts(records: Seq<Record>) -> Seq<nat> {
    Seq::new(records.len(), |k: int| records[k].threads as nat)
}

/// The latencies of the records in nanoseconds, in order.
pub open spec fn latencies(records: Seq<Record>) -> Seq<nat> {
    Seq::new(records.len(), |k: int| records[k].latency.nanos())
}

/// The ranks of the records' throughputs, in order.
pub open spec fn throughput_ranks(records: Seq<Record>) -> Seq<nat> {
    Seq::new(records.len(), |k: int| throughput_rank(records[k].throughput_bits))
}

/// The largest thread count, latency and throughput among all records.
#[derive(Clone, Copy, Debug)]
pub struct Maxima {
    pub threads: u32,
    pub latency: Span,
    pub throughput_bits: u64,
}

/// The largest thread count, latency and throughput among all records of all
/// groups, each 0 where there is no record.
pub fn maxima(groups: &Vec<Group>) -> (top: Maxima)
    requires
        all_wf(groups@),
    ensures
        top.threads == largest(thread_counts(all_records(groups@))),
        top.latency.wf(),
        top.latency.nanos() == largest(latencies(all_records(groups@))),
        top.throughput_bits == largest(throughput_ranks(all_records(groups@))),
{
    let mut top = Maxima {
        threads: 0,
        latency: Span { secs: 0, subsec_nanos: 0 },
        throughput_bits: 0,
    };
    let mut i: usize = 0;
    let ghost mut seen: Seq<Record> = Seq::empty();
    while i < groups.len()
        invariant
            all_wf(groups@),
            i <= groups@.len(),
            seen == all_records(groups@.take(i as int)),
            top.threads == largest(thread_counts(seen)),
            top.latency.wf(),
            top.latency.nanos() == largest(latencies(seen)),
            top.throughput_bits == largest(throughput_ranks(seen)),
        decreases groups@.len() - i,
    {
        let records = &groups[i].records;
        let ghost start = seen;
        let mut j: usize = 0;
        while j < records.len()
            invariant
                all_wf(groups@),
                i < groups@.len(),
                records@ == groups@[i as int].records@,
                j <= records@.len(),
                seen == start + records@.take(j as int),
                top.threads == largest(thread_counts(seen)),
                top.latency.wf(),
                top.latency.nanos() == largest(latencies(seen)),
                top.throughput_bits == largest(throughput_ranks(seen)),
            decreases records@.len() - j,
        {
            let record = &records[j];
            proof {
                let next = seen.push(*record);
                assert(thread_counts(next) =~= thread_counts(seen).push(record.threads as nat));
                assert(latencies(next) =~= latencies(seen).push(record.latency.nanos()));
                assert(throughput_ranks(next) =~= throughput_ranks(seen).push(
                    throughput_rank(record.throughput_bits),
                ));
                lemma_largest_push(thread_counts(seen), record.threads as nat);
                lemma_largest_push(latencies(seen), record.latency.nanos());
                lemma_largest_push(
                    throughput_ranks(seen),
                    throughput_rank(record.throughput_bits),
                );
                seen = next;
            }
            if record.threads > top.threads {
                top.threads = record.threads;
            }
            if record.latency.exceeds(&top.latency) {
                top.latency = record.latency;
            }
            if record.throughput_bits <= INFINITY_BITS && record.throughput_bits
                > top.throughput_bits {
                top.throughput_bits = record.throughput_bits;
            }
            j += 1;
        }
        proof {
            assert(groups@.take(i as int + 1).drop_last() =~= groups@.take(i as int));
        }
        i += 1;
    }
    proof {
        assert(groups@.take(i as int) =~= groups@);
    }
    top
}

/// One line of a chart: the records of one group as points.
#[derive(Debug)]
pub struct Series {
    pub label: String,
    pub color: Color,
    pub points: Vec<(u32, u64)>,
}

/// A chart, ready to be drawn: the horizontal axis runs from 1 to `x_max`
/// threads, the vertical one from 0 to `y_max`.
#[derive(Debug)]
pub struct Chart {
    pub path: String,
    pub caption: String,
    pub width: u32,
    pub height: u32,
    pub x_max: u32,
    pub y_max: u64,
    pub series: Vec<Series>,
}

/// The points of a latency series: thread count and latency in nanoseconds, cut to 64 bits.
pub open spec fn latency_points(records: Seq<Record>) -> Seq<(u32, u64)> {
    Seq::new(
        records.len(),
        |k: int| (records[k].threads, timestamp_of(records[k].latency.nanos()) as u64),
    )
}

/// The points of a throughput series: thread count and the bits of the throughput.
pub open spec fn throughput_points(records: Seq<Record>) -> Seq<(u32, u64)> {
    Seq::new(records.len(), |k: int| (records[k].threads, records[k].throughput_bits))
}

/// No group is empty.
pub open spec fn none_empty(groups: Seq<Group>) -> bool {
    forall|i: int| 0 <= i < groups.len() ==> (#[trigger] groups[i]).records@.len() > 0
}

/// The file that a chart of `name` goes to under `dir`.
pub open spec fn chart_path(dir: Seq<char>, name: Seq<char>, ending: Seq<char>) -> Seq<char> {
    dir + "/"@ + name + ending
}

/// The series at `index` is the one drawn for `group`, with latencies or throughputs as points.
pub open spec fn series_for(series: Series, group: Group, index: int, latency: bool) -> bool {
    &&& series.label@ == group.records@[0].name@
    &&& series.color == color_at(index as nat)
    &&& series.points@ == if latency {
        latency_points(group.records@)
    } else {
        throughput_points(group.records@)
    }
}

/// The smaller of the limit and the largest latency, cut to 64 bits.
pub open spec fn latency_bound(limit: u64, longest: nat) -> nat {
    if timestamp_of(longest) < limit {
        timestamp_of(longest)
    } else {
        limit as nat
    }
}

fn file_of(options: &Options, ending: &str) -> (path: String)
    ensures
        path@ == chart_path(options.dir@, options.name@, ending@),
{
    let mut path = options.dir.clone();
    path.append("/");
    path.append(options.name.as_str());
    path.append(ending);
    path
}

fn caption_of(options: &Options, what: &str) -> (caption: String)
    ensures
        caption@ == options.name@ + what@,
{
    let mut caption = options.name.clone();
    caption.append(what);
    caption
}

fn series_of(groups: &Vec<Group>, latency: bool) -> (series: Vec<Series>)
    requires
        all_wf(groups@),
        none_empty(groups@),
    ensures
        series@.len() == groups@.len(),
        forall|i: int|
            0 <= i < groups@.len() ==> series_for(#[trigger] series@[i], groups@[i], i, latency),
{
    let mut series: Vec<Series> = Vec::new();
    let mut i: usize = 0;
    while i < groups.len()
        invariant
            all_wf(groups@),
            none_empty(groups@),
            i <= groups@.len(),
            series@.len() == i,
            forall|n: int| 0 <= n < i ==> series_for(#[trigger] series@[n], groups@[n], n, latency),
        decreases groups@.len() - i,
    {
        let records = &groups[i].records;
        let mut points: Vec<(u32, u64)> = Vec::new();
        let mut j: usize = 0;
        while j < records.len()
            invariant
                all_wf(groups@),
                i < groups@.len(),
                records@ == groups@[i as int].records@,
                j <= records@.len(),
                points@.len() == j,
                forall|k: int|
                    0 <= k < j ==> #[trigger] points@[k] == if latency {
                        latency_points(records@)[k]
                    } else {
                        throughput_points(records@)[k]
                    },
            decreases records@.len() - j,
        {
            let record = &records[j];
            let height: u64 = if latency {
                serialize(&record.latency)
            } else {
                record.throughput_bits
            };
            points.push((record.threads, height));
            j += 1;
        }
        proof {
            if latency {
                assert(points@ =~= latency_points(records@));
            } else {
                assert(points@ =~= throughput_points(records@));
            }
        }
        let label = records[0].name.clone();
        series.push(Series { label, color: series_color(i), points });
        i += 1;
    }
    series
}

/// `chart` is the chart of the latencies of `groups`: one series for each
/// group, the thread counts up to the largest one, the latencies up to the
/// largest one or to the limit of `options`, whichever is smaller.
pub open spec fn is_latency_chart(chart: Chart, options: Options, groups: Seq<Group>) -> bool {
    &&& chart.path@ == chart_path(options.dir@, options.name@, ".latency.svg"@)
    &&& chart.caption@ == options.name@ + ": Latency"@
    &&& chart.width == options.width
    &&& chart.height == options.height
    &&& chart.x_max == largest(thread_counts(all_records(groups)))
    &&& chart.y_max == latency_bound(
        options.latency_limit_ns,
        largest(latencies(all_records(groups))),
    )
    &&& chart.series@.len() == groups.len()
    &&& forall|i: int|
        0 <= i < groups.len() ==> series_for(#[trigger] chart.series@[i], groups[i], i, true)
}

/// `chart` is the chart of the throughputs of `groups`: one series for each
/// group, the thread counts up to the largest one, the throughputs up to the
/// largest one that is neither negative nor not a number.
pub open spec fn is_throughput_chart(chart: Chart, options: Options, groups: Seq<Group>) -> bool {
    &&& chart.path@ == chart_path(options.dir@, options.name@, ".throughput.svg"@)
    &&& chart.caption@ == options.name@ + ": Throughput"@
    &&& chart.width == options.width
    &&& chart.height == options.height
    &&& chart.x_max == largest(thread_counts(all_records(groups)))
    &&& chart.y_max == largest(throughput_ranks(all_records(groups)))
    &&& chart.series@.len() == groups.len()
    &&& forall|i: int|
        0 <= i < groups.len() ==> series_for(#[trigger] chart.series@[i], groups[i], i, false)
}

/// The chart of the latencies of the groups.
pub fn plot_latency(options: &Options, groups: &Vec<Group>) -> (chart: Chart)
    requires
        all_wf(groups@),
        none_empty(groups@),
    ensures
        is_latency_chart(chart, *options, groups@),
{
    let top = maxima(groups);
    let longest: u64 = serialize(&top.latency);
    let y_max: u64 = if longest < options.latency_limit_ns {
        longest
    } else {
        options.latency_limit_ns
    };
    Chart {
        path: file_of(options, ".latency.svg"),
        caption: caption_of(options, ": Latency"),
        width: options.width,
        height: options.height,
        x_max: top.threads,
        y_max,
        series: series_of(groups, true),
    }
}

/// The chart of the throughputs of the groups.
pub fn plot_throughput(options: &Options, groups: &Vec<Group>) -> (chart: Chart)
    requires
        all_wf(groups@),
        none_empty(groups@),
    ensures
        is_throughput_chart(chart, *options, groups@),
{
    let top = maxima(groups);
    Chart {
        path: file_of(options, ".throughput.svg"),
        caption: caption_of(options, ": Throughput"),
        width: options.width,
        height: options.height,
        x_max: top.threads,
        y_max: top.throughput_bits,
        series: series_of(groups, false),
    }
}

/// Every record has well-formed spans.
pub open spec fn records_wf(records: Seq<Record>) -> bool {
    forall|k: int| 0 <= k < records.len() ==> (#[trigger] records[k]).wf()
}

/// The records grouped by name, and the two charts drawn from the groups.
#[derive(Debug)]
pub struct Charts {
    pub groups: Vec<Group>,
    pub throughput: Chart,
    pub latency: Chart,
}

/// Groups the records by name and lays out both charts.
pub fn plot(options: &Options, records: Vec<Record>) -> (charts: Charts)
    requires
        records_wf(records@),
    ensures
        groups_of(charts.groups@, records@),
        is_throughput_chart(charts.throughput, *options, charts.groups@),
        is_latency_chart(charts.latency, *options, charts.groups@),
{
    let groups = group_data(records);
    let throughput = plot_throughput(options, &groups);
    let latency = plot_latency(options, &groups);
    Charts { groups, throughput, latency }
}

} // verus!
