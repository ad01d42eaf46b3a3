use vstd::prelude::*;

verus! {

/// Configuration of a benchmark run. Immutable once a run starts: the
/// engine snapshots it into every sample it produces.
#[derive(Clone, Copy, Debug)]
pub struct Options {
    /// Number of workload invocations folded into one timed sample.
    /// Must be at least 1.
    pub iterations: u64,
    /// Number of untimed workload invocations executed and discarded
    /// before sampling begins. May be 0.
    pub warmup_iterations: u64,
    /// Minimum number of timed samples before convergence may be
    /// declared. Must be at least 1.
    pub min_samples: usize,
    /// Hard cap on timed samples. A value of 0 is treated as 1.
    pub max_samples: usize,
    /// Convergence threshold on the relative standard deviation of the
    /// samples, in hundredths of a percent: 500 means 5%. At most
    /// 10_000 (that is, 100%).
    pub max_rsd_hundredths: u64,
    /// Wall-clock budget for the sampling loop, in whole seconds. When
    /// set, sampling stops once the whole seconds elapsed since the
    /// first sample began meet or exceed it; when unset, only
    /// convergence or the sample cap stop the loop.
    pub max_duration: Option<u64>,
    /// Enables progress narration in embedding applications. The engine
    /// itself never reads it: narration is observational only.
    pub verbose: bool,
}

impl Options {
    /// The bounds the engine expects of a configuration: at least one
    /// iteration per sample, at least one sample before convergence,
    /// and a threshold of at most 100%.
    pub open spec fn wf(self) -> bool {
        &&& self.iterations >= 1
        &&& self.min_samples >= 1
        &&& self.max_rsd_hundredths <= 10_000
    }

    /// The sample cap actually applied: `max_samples`, clamped to at
    /// least one, so that every run produces at least one sample.
    pub open spec fn effective_max_samples(self) -> int {
        if self.max_samples == 0 {
            1
        } else {
            self.max_samples as int
        }
    }
}

impl Default for Options {
    /// Reference defaults: one iteration per sample, no warm-up, between
    /// 3 and 5 samples, a 5% threshold, no wall-clock budget, quiet.
    fn default() -> (r: Options)
        ensures
            r.iterations == 1,
            r.warmup_iterations == 0,
            r.min_samples == 3,
            r.max_samples == 5,
            r.max_rsd_hundredths == 500,
            r.max_duration == Option::<u64>::None,
            !r.verbose,
            r.wf(),
    {
        Options {
            iterations: 1,
            warmup_iterations: 0,
            min_samples: 3,
            max_samples: 5,
            max_rsd_hundredths: 500,
            max_duration: None,
            verbose: false,
        }
    }
}

} // verus!
