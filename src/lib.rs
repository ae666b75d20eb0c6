//! A parallel micro-benchmarking harness.
//!
//! A subject implements [`Bench`]; a [`BenchMarker`] collects the measured
//! latencies of many runs of it, in rounds of parallel workers, into a sorted
//! sample store, reduces them to summary statistics and renders a report whose
//! sections and their order the caller picks with [`DisplayCfg`].
//!
//! The library decides and computes; spawning the workers and reading the
//! clock is left to the caller, which hands over the samples of each
//! execution with [`BenchMarker::record`].
pub mod stats;
pub mod store;
pub mod report;
pub mod harness;

pub use harness::{default_config, Bench, BenchError, BenchMarker};
pub use report::{DisplayCfg, Emphasis, Line, RunInfo};
pub use stats::{Summary, MIN_SAMPLES};
