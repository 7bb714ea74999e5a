//! A benchmark harness for concurrent key-value maps: workload presets, the
//! plan of a sweep over backends and thread counts, the tables under test,
//! and the preparation of measurements for reports and plots.

pub mod adapters;
pub mod bench;
pub mod bits;
pub mod cache;
pub mod driver;
pub mod plot;
pub mod record;
pub mod text;
pub mod workloads;
