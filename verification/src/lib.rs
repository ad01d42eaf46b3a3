//! An adaptive micro-benchmark harness.
//!
//! The engine times repeated executions of a caller-supplied workload,
//! collects elapsed-time samples, and decides after each sample whether
//! enough have been gathered: it stops once the relative standard
//! deviation of the samples falls below a configured threshold, once a
//! wall-clock budget is exhausted, or once a hard sample cap is reached.
//! The reported result is the fastest sample observed.
//!
//! Timestamps and tick-rate calibration come from the `precision` crate;
//! everything the engine decides or computes from those ticks is verified.

mod engine;
mod options;
mod result;
mod stats;

pub use engine::black_box;
pub use engine::stop_decision;
pub use engine::ticks_of;
pub use engine::Bench;
pub use engine::StopReason;
pub use engine::Workload;
pub use options::Options;
pub use result::lemma_conversions_agree;
pub use result::lemma_merge_associative;
pub use result::min_result;
pub use result::BenchResult;
pub use result::Magnitude;
pub use result::Throughput;
pub use result::Unit;
pub use stats::converged;
pub use stats::convergence_check;
pub use stats::dev_sq;
pub use stats::lemma_converged_scale_invariant;
pub use stats::rsd_strictly_below;
pub use stats::scale_seq;
pub use stats::scaled_dev_sum;
pub use stats::sq;
pub use stats::stats_fit;
pub use stats::sum_of;
