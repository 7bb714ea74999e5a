//! Workloads: the mix of operations, the size of the table and how full it
//! starts, and the named presets.

use crate::bits::{countable, is_countable, scale, scaled};
use crate::text::same_text;
use vstd::arithmetic::power2::{lemma_pow2_strictly_increases, lemma_pow2_unfold, pow2};
use vstd::prelude::*;

verus! {

/// How many operations of each kind there are among a hundred.
#[derive(Clone, Copy, Debug, PartialEq, Eq, Structural)]
pub struct Mix {
    pub read: u8,
    pub insert: u8,
    pub remove: u8,
    pub update: u8,
    pub upsert: u8,
}

impl Mix {
    /// The sum of the five shares.
    pub open spec fn total(&self) -> int {
        self.read + self.insert + self.remove + self.update + self.upsert
    }

    /// The shares add up to a hundred.
    pub open spec fn valid(&self) -> bool {
        self.total() == 100
    }

    /// Whether the shares add up to a hundred.
    pub fn is_valid(&self) -> (ok: bool)
        ensures
            ok == self.valid(),
    {
        let total: u32 = self.read as u32 + self.insert as u32 + self.remove as u32
            + self.update as u32 + self.upsert as u32;
        total == 100
    }
}

/// What to run: on how many threads, which operations, on a table of which
/// size, how full at the start, and how many operations.
///
/// The table is built for two to the power of `initial_capacity_log2` keys.
/// `prefill_percent` of them are asked for before the run. Who runs the
/// workload may share them out evenly among the threads and leave out what
/// does not divide, so that up to one key less than there are threads is
/// inserted. Every thread runs
/// a log of operations of its own, whose length is a multiple of the
/// capacity; the multiple, a floating-point number, is held as the 64 bits
/// of its IEEE 754 encoding.
#[derive(Clone, Copy, Debug, PartialEq, Eq, Structural)]
pub struct Workload {
    pub threads: usize,
    pub mix: Mix,
    pub initial_capacity_log2: u8,
    pub prefill_percent: u8,
    pub operations_bits: u64,
}

/// Why a workload cannot be run.
#[derive(Clone, Copy, Debug, PartialEq, Eq, Structural)]
pub enum ConfigError {
    /// There is no thread to run it.
    NoThreads,
    /// The shares of the mix do not add up to a hundred.
    MixTotal,
    /// The capacity does not fit in a machine word.
    Capacity,
    /// More than the whole table is to be filled.
    Prefill,
    /// The multiple of operations is negative, infinite or not a number.
    Operations,
    /// All threads together run more operations than can be counted.
    TooManyOperations,
}

impl ConfigError {
    /// What is wrong, in words.
    pub open spec fn text(&self) -> Seq<char> {
        match *self {
            ConfigError::NoThreads => "there is no thread to run the workload"@,
            ConfigError::MixTotal => "the shares of the mix do not add up to 100"@,
            ConfigError::Capacity => "the capacity does not fit in a machine word"@,
            ConfigError::Prefill => "more than the whole table is to be filled"@,
            ConfigError::Operations => "the multiple of operations is no amount"@,
            ConfigError::TooManyOperations => "there are more operations than can be counted"@,
        }
    }

    /// What is wrong, in words.
    pub fn message(&self) -> (text: &'static str)
        ensures
            text@ == self.text(),
    {
        match self {
            ConfigError::NoThreads => "there is no thread to run the workload",
            ConfigError::MixTotal => "the shares of the mix do not add up to 100",
            ConfigError::Capacity => "the capacity does not fit in a machine word",
            ConfigError::Prefill => "more than the whole table is to be filled",
            ConfigError::Operations => "the multiple of operations is no amount",
            ConfigError::TooManyOperations => "there are more operations than can be counted",
        }
    }
}

/// What is to be done with a workload.
#[derive(Clone, Copy, Debug, PartialEq, Eq, Structural)]
pub enum RunPlan {
    /// It cannot be run, for this reason.
    Refused(ConfigError),
    /// It asks for no operation, so there is nothing to run or to time.
    Idle,
    /// It is run on a table built for `capacity` keys, of which `prefill`
    /// are asked for before the run, with `total` operations over all
    /// threads.
    Run { capacity: usize, prefill: usize, total: u64 },
}

/// The most operations that all threads together may run: two to the power
/// of 53, up to which every whole number is a floating-point number too.
pub const MAX_TOTAL_OPS: u64 = 0x20_0000_0000_0000;

/// The sum of the lengths of `threads` logs of `length` operations each.
pub open spec fn logs_sum(length: nat, threads: nat) -> nat
    decreases threads,
{
    if threads == 0 {
        0
    } else {
        logs_sum(length, (threads - 1) as nat) + length
    }
}

impl Workload {
    /// The first thing that is wrong with the workload, if anything is.
    pub open spec fn defect(&self) -> Option<ConfigError> {
        if self.threads == 0 {
            Some(ConfigError::NoThreads)
        } else if !self.mix.valid() {
            Some(ConfigError::MixTotal)
        } else if self.initial_capacity_log2 >= usize::BITS {
            Some(ConfigError::Capacity)
        } else if self.prefill_percent > 100 {
            Some(ConfigError::Prefill)
        } else if !countable(self.operations_bits) {
            Some(ConfigError::Operations)
        } else if self.total_operations() > MAX_TOTAL_OPS {
            Some(ConfigError::TooManyOperations)
        } else {
            None
        }
    }

    /// The length of the log of operations that each thread runs: the
    /// multiple of operations times the capacity, rounded down.
    pub open spec fn log_length(&self) -> nat {
        scaled(self.operations_bits, self.initial_capacity_log2 as nat)
    }

    /// The number of operations that all threads together run.
    pub open spec fn total_operations(&self) -> nat {
        self.threads as nat * self.log_length()
    }

    /// The workload can be run.
    pub open spec fn valid(&self) -> bool {
        self.defect().is_none()
    }

    /// What is to be done with the workload: nothing where something is
    /// wrong with it or where it asks for no operation, and a run otherwise.
    pub open spec fn planned(&self) -> RunPlan {
        match self.defect() {
            Some(error) => RunPlan::Refused(error),
            None => if self.total_operations() == 0 {
                RunPlan::Idle
            } else {
                RunPlan::Run {
                    capacity: self.capacity_keys() as usize,
                    prefill: self.prefill_keys() as usize,
                    total: self.total_operations() as u64,
                }
            },
        }
    }

    /// The number of keys that the table is built for.
    pub open spec fn capacity_keys(&self) -> nat {
        pow2(self.initial_capacity_log2 as nat)
    }

    /// The number of keys that are inserted before the run.
    pub open spec fn prefill_keys(&self) -> nat {
        self.capacity_keys() * (self.prefill_percent as nat) / 100
    }

    /// The workload of these five settings.
    pub fn new(
        threads: usize,
        mix: Mix,
        initial_capacity_log2: u8,
        prefill_percent: u8,
        operations_bits: u64,
    ) -> (workload: Workload)
        ensures
            workload == (Workload {
                threads,
                mix,
                initial_capacity_log2,
                prefill_percent,
                operations_bits,
            }),
    {
        Workload { threads, mix, initial_capacity_log2, prefill_percent, operations_bits }
    }

    /// The same workload on a table for two to the power of `capacity` keys.
    pub fn initial_capacity_log2(self, capacity: u8) -> (workload: Workload)
        ensures
            workload == (Workload { initial_capacity_log2: capacity, ..self }),
    {
        Workload { initial_capacity_log2: capacity, ..self }
    }

    /// The same workload with `percent` of the table filled before the run.
    pub fn prefill_percent(self, percent: u8) -> (workload: Workload)
        ensures
            workload == (Workload { prefill_percent: percent, ..self }),
    {
        Workload { prefill_percent: percent, ..self }
    }

    /// The same workload with the multiple of operations that has these bits.
    pub fn operations(self, bits: u64) -> (workload: Workload)
        ensures
            workload == (Workload { operations_bits: bits, ..self }),
    {
        Workload { operations_bits: bits, ..self }
    }

    /// The number of keys that the table is built for.
    pub fn capacity(&self) -> (keys: usize)
        requires
            self.initial_capacity_log2 < usize::BITS,
        ensures
            keys == self.capacity_keys(),
    {
        let mut keys: usize = 1;
        let mut done: u8 = 0;
        proof {
            vstd::layout::unsigned_int_max_values();
            lemma_pow2_strictly_increases(self.initial_capacity_log2 as nat, usize::BITS as nat);
            vstd::arithmetic::power2::lemma2_to64();
        }
        while done < self.initial_capacity_log2
            invariant
                done <= self.initial_capacity_log2,
                keys == pow2(done as nat),
                pow2(self.initial_capacity_log2 as nat) <= usize::MAX,
            decreases self.initial_capacity_log2 - done,
        {
            proof {
                lemma_pow2_unfold((done + 1) as nat);
                if done + 1 < self.initial_capacity_log2 {
                    lemma_pow2_strictly_increases(
                        (done + 1) as nat,
                        self.initial_capacity_log2 as nat,
                    );
                }
            }
            keys = keys * 2;
            done = done + 1;
        }
        keys
    }

    /// The number of keys that are inserted before the run.
    pub fn prefill(&self) -> (keys: usize)
        requires
            self.initial_capacity_log2 < usize::BITS,
            self.prefill_percent <= 100,
        ensures
            keys == self.prefill_keys(),
            keys <= self.capacity_keys(),
    {
        let capacity = self.capacity();
        assert((capacity as u128) * (self.prefill_percent as u128) <= 0xffff_ffff_ffff_ffff * 100)
            by (nonlinear_arith)
            requires
                capacity <= 0xffff_ffff_ffff_ffff,
                self.prefill_percent <= 100,
        ;
        let product: u128 = (capacity as u128) * (self.prefill_percent as u128);
        let keys: u128 = product / 100;
        assert(keys <= capacity) by (nonlinear_arith)
            requires
                keys == (capacity as int * self.prefill_percent as int) / 100,
                self.prefill_percent <= 100,
        ;
        keys as usize
    }

    /// Whether the workload can be run, and if not, what is wrong first.
    pub fn check(&self) -> (outcome: Result<(), ConfigError>)
        ensures
            outcome == match self.defect() {
                Some(error) => Err::<(), ConfigError>(error),
                None => Ok::<(), ConfigError>(()),
            },
    {
        if self.threads == 0 {
            Err(ConfigError::NoThreads)
        } else if !self.mix.is_valid() {
            Err(ConfigError::MixTotal)
        } else if self.initial_capacity_log2 as u32 >= usize::BITS {
            Err(ConfigError::Capacity)
        } else if self.prefill_percent > 100 {
            Err(ConfigError::Prefill)
        } else if !is_countable(self.operations_bits) {
            Err(ConfigError::Operations)
        } else {
            match scale(self.operations_bits, self.initial_capacity_log2) {
                None => {
                    assert(self.total_operations() > MAX_TOTAL_OPS) by (nonlinear_arith)
                        requires
                            self.total_operations() == self.threads as nat * self.log_length(),
                            self.threads >= 1,
                            self.log_length() > u64::MAX,
                    ;
                    Err(ConfigError::TooManyOperations)
                },
                Some(length) => {
                    assert((self.threads as u128) * (length as u128) <= 0xffff_ffff_ffff_ffff
                        * 0xffff_ffff_ffff_ffff) by (nonlinear_arith)
                        requires
                            self.threads <= 0xffff_ffff_ffff_ffff,
                            length <= 0xffff_ffff_ffff_ffff,
                    ;
                    let total: u128 = (self.threads as u128) * (length as u128);
                    if total > MAX_TOTAL_OPS as u128 {
                        Err(ConfigError::TooManyOperations)
                    } else {
                        Ok(())
                    }
                },
            }
        }
    }

    /// What is to be done with the workload.
    pub fn run_plan(&self) -> (plan: RunPlan)
        ensures
            plan == self.planned(),
    {
        match self.check() {
            Err(error) => RunPlan::Refused(error),
            Ok(()) => {
                let total = self.total_ops();
                if total == 0 {
                    RunPlan::Idle
                } else {
                    RunPlan::Run { capacity: self.capacity(), prefill: self.prefill(), total }
                }
            },
        }
    }

    /// The length of the log of operations that each thread runs.
    pub fn log_len(&self) -> (length: u64)
        requires
            self.valid(),
        ensures
            length == self.log_length(),
    {
        match scale(self.operations_bits, self.initial_capacity_log2) {
            Some(length) => length,
            None => {
                assert(self.total_operations() > MAX_TOTAL_OPS) by (nonlinear_arith)
                    requires
                        self.total_operations() == self.threads as nat * self.log_length(),
                        self.threads >= 1,
                        self.log_length() > u64::MAX,
                ;
                0
            },
        }
    }

    /// The number of operations that all threads together run.
    pub fn total_ops(&self) -> (total: u64)
        requires
            self.valid(),
        ensures
            total == self.total_operations(),
            total <= MAX_TOTAL_OPS,
    {
        let length = self.log_len();
        assert((self.threads as u128) * (length as u128) <= 0xffff_ffff_ffff_ffff
            * 0xffff_ffff_ffff_ffff) by (nonlinear_arith)
            requires
                self.threads <= 0xffff_ffff_ffff_ffff,
                length <= 0xffff_ffff_ffff_ffff,
        ;
        let total: u128 = (self.threads as u128) * (length as u128);
        total as u64
    }
}

/// Which preset to run.
#[derive(Clone, Copy, Debug, PartialEq, Eq, Structural)]
pub enum WorkloadKind {
    ReadHeavy,
    Exchange,
    RapidGrow,
}

/// The preset that a name stands for, if it is the name of one.
pub open spec fn kind_named(name: Seq<char>) -> Option<WorkloadKind> {
    if name == "ReadHeavy"@ {
        Some(WorkloadKind::ReadHeavy)
    } else if name == "Exchange"@ {
        Some(WorkloadKind::Exchange)
    } else if name == "RapidGrow"@ {
        Some(WorkloadKind::RapidGrow)
    } else {
        None
    }
}

impl WorkloadKind {
    /// The name of the preset.
    pub open spec fn name_text(&self) -> Seq<char> {
        match *self {
            WorkloadKind::ReadHeavy => "ReadHeavy"@,
            WorkloadKind::Exchange => "Exchange"@,
            WorkloadKind::RapidGrow => "RapidGrow"@,
        }
    }

    /// The preset named `s`; any other text is an unknown workload.
    pub fn from_str(s: &str) -> (outcome: Result<WorkloadKind, &'static str>)
        ensures
            match outcome {
                Ok(kind) => kind_named(s@) == Some(kind),
                Err(message) => kind_named(s@).is_none() && message@ == "unknown workload"@,
            },
    {
        if same_text(s, "ReadHeavy") {
            Ok(WorkloadKind::ReadHeavy)
        } else if same_text(s, "Exchange") {
            Ok(WorkloadKind::Exchange)
        } else if same_text(s, "RapidGrow") {
            Ok(WorkloadKind::RapidGrow)
        } else {
            Err("unknown workload")
        }
    }

    /// The name of the preset, as `from_str` reads it.
    pub fn name(&self) -> (name: &'static str)
        ensures
            name@ == self.name_text(),
    {
        match self {
            WorkloadKind::ReadHeavy => "ReadHeavy",
            WorkloadKind::Exchange => "Exchange",
            WorkloadKind::RapidGrow => "RapidGrow",
        }
    }
}

/// The mix of the read-heavy preset.
pub open spec fn read_heavy_mix() -> Mix {
    Mix { read: 98, insert: 1, remove: 1, update: 0, upsert: 0 }
}

/// The mix of the rapid-grow preset.
pub open spec fn rapid_grow_mix() -> Mix {
    Mix { read: 5, insert: 80, remove: 5, update: 10, upsert: 0 }
}

/// The mix of the exchange preset.
pub open spec fn exchange_mix() -> Mix {
    Mix { read: 10, insert: 40, remove: 40, update: 10, upsert: 0 }
}

/// The preset of `kind` for `threads` threads, with the multiple of
/// operations that has the bits `operations_bits`: its mix on a table for
/// 2^20 keys, four fifths full at the start unless it is to grow.
pub open spec fn preset(kind: WorkloadKind, operations_bits: u64, threads: u32) -> Workload {
    Workload {
        threads: threads as usize,
        mix: match kind {
            WorkloadKind::ReadHeavy => read_heavy_mix(),
            WorkloadKind::Exchange => exchange_mix(),
            WorkloadKind::RapidGrow => rapid_grow_mix(),
        },
        initial_capacity_log2: 20,
        prefill_percent: match kind {
            WorkloadKind::RapidGrow => 0,
            _ => 80,
        },
        operations_bits,
    }
}

/// Mostly reads, on a table that starts four fifths full.
pub fn read_heavy(threads: u32, operations_bits: u64) -> (workload: Workload)
    ensures
        workload == preset(WorkloadKind::ReadHeavy, operations_bits, threads),
{
    let mix = Mix { read: 98, insert: 1, remove: 1, update: 0, upsert: 0 };
    Workload::new(threads as usize, mix, 20, 80, operations_bits)
}

/// Mostly inserts, on a table that starts empty.
pub fn rapid_grow(threads: u32, operations_bits: u64) -> (workload: Workload)
    ensures
        workload == preset(WorkloadKind::RapidGrow, operations_bits, threads),
{
    let mix = Mix { read: 5, insert: 80, remove: 5, update: 10, upsert: 0 };
    Workload::new(threads as usize, mix, 20, 0, operations_bits)
}

/// As many inserts as removals, on a table that starts four fifths full.
pub fn exchange(threads: u32, operations_bits: u64) -> (workload: Workload)
    ensures
        workload == preset(WorkloadKind::Exchange, operations_bits, threads),
{
    let mix = Mix { read: 10, insert: 40, remove: 40, update: 10, upsert: 0 };
    Workload::new(threads as usize, mix, 20, 80, operations_bits)
}

/// The preset of `kind` for `threads` threads, with the multiple of
/// operations that has the bits `operations_bits`.
pub fn create(kind: WorkloadKind, operations_bits: u64, threads: u32) -> (workload: Workload)
    ensures
        workload == preset(kind, operations_bits, threads),
{
    match kind {
        WorkloadKind::ReadHeavy => read_heavy(threads, operations_bits),
        WorkloadKind::Exchange => exchange(threads, operations_bits),
        WorkloadKind::RapidGrow => rapid_grow(threads, operations_bits),
    }
}

/// A table that is not to be filled starts empty, and one that is to be
/// filled to a hundred percent starts with as many keys as it is built for.
pub proof fn lemma_prefill_extremes(workload: Workload)
    ensures
        workload.prefill_percent == 0 ==> workload.prefill_keys() == 0,
        workload.prefill_percent == 100 ==> workload.prefill_keys() == workload.capacity_keys(),
{
}

/// The number of operations that all threads together run is the sum of
/// the lengths of their logs, for every number of threads.
pub proof fn lemma_total_is_sum_of_logs(workload: Workload)
    ensures
        workload.total_operations() == logs_sum(workload.log_length(), workload.threads as nat),
{
    lemma_logs_sum(workload.log_length(), workload.threads as nat);
}

/// Logs of one length add up to that length times their number.
pub proof fn lemma_logs_sum(length: nat, threads: nat)
    ensures
        logs_sum(length, threads) == threads * length,
    decreases threads,
{
    if threads > 0 {
        let fewer = (threads - 1) as nat;
        lemma_logs_sum(length, fewer);
        assert(fewer * length + length == threads * length) by (nonlinear_arith)
            requires
                fewer + 1 == threads,
        ;
    } else {
        assert(threads * length == 0) by (nonlinear_arith)
            requires
                threads == 0,
        ;
    }
}

/// Where a valid mix has one share that is not zero, that share is the
/// whole hundred: no operation of another kind is asked for.
pub proof fn lemma_single_share_is_whole(mix: Mix)
    requires
        mix.valid(),
    ensures
        mix.insert == 0 && mix.remove == 0 && mix.update == 0 && mix.upsert == 0 ==> mix.read
            == 100,
        mix.read == 0 && mix.remove == 0 && mix.update == 0 && mix.upsert == 0 ==> mix.insert
            == 100,
        mix.read == 0 && mix.insert == 0 && mix.update == 0 && mix.upsert == 0 ==> mix.remove
            == 100,
        mix.read == 0 && mix.insert == 0 && mix.remove == 0 && mix.upsert == 0 ==> mix.update
            == 100,
        mix.read == 0 && mix.insert == 0 && mix.remove == 0 && mix.update == 0 ==> mix.upsert
            == 100,
{
}

/// Every preset has a mix whose shares add up to a hundred.
pub proof fn lemma_presets_have_valid_mix(kind: WorkloadKind, operations_bits: u64, threads: u32)
    ensures
        preset(kind, operations_bits, threads).mix.valid(),
{
}

} // verus!
