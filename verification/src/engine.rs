use crate::options::Options;
use crate::result::{min_result, BenchResult};
use crate::stats::{converged, convergence_check, stats_fit};
use vstd::arithmetic::div_mod::lemma_div_non_zero;
use vstd::prelude::*;

verus! {

/// `precision::Precision` is the timer provider's calibrated clock.
/// The engine carries it opaquely and reads time only through the
/// trusted wrappers below.
#[verifier::external_type_specification]
#[verifier::external_body]
pub struct ExPrecision(precision::Precision);

/// `precision::Timestamp` is one opaque reading of the timer provider's
/// monotonic counter; only the difference between two of them means
/// anything.
#[verifier::external_type_specification]
#[verifier::external_body]
pub struct ExTimestamp(precision::Timestamp);

/// Relies on `precision::Precision::new` under the default
/// configuration, which enables wall-time calibration: on success every
/// later tick-to-time conversion against the returned clock divides by
/// a calibrated tick frequency that `Precision::new` only ever sets to
/// a value between 1 and `u64::MAX`. The probe returned beside the
/// clock is `precision::Elapsed::as_secs` of `u64::MAX` ticks, that is
/// `u64::MAX` divided by that frequency, so it lies between 1 and
/// `u64::MAX`.
#[verifier::external_body]
fn timer_setup() -> (r: Option<(precision::Precision, u64)>)
    ensures
        r matches Some(pair) ==> 1 <= pair.1,
{
    match precision::Precision::new(precision::Config::default()) {
        Ok(clock) => {
            let probe = precision::Elapsed::from_ticks(u64::MAX).as_secs(&clock);
            Some((clock, probe))
        },
        Err(_) => None,
    }
}

/// Relies on `precision::Precision::now`: an opaque reading of the
/// monotonic counter. Nothing is assumed of the value.
#[verifier::external_body]
fn timer_now(clock: &precision::Precision) -> (r: precision::Timestamp) {
    clock.now()
}

/// Relies on the subtraction of `precision::Timestamp` values (which
/// wraps rather than panics) and on `precision::Elapsed::ticks`: the
/// number of ticks from `start` to now. Nothing is assumed of the
/// value: the engine's contracts hold whatever the counter returns.
#[verifier::external_body]
fn ticks_since(clock: &precision::Precision, start: &precision::Timestamp) -> (r: u64) {
    (clock.now() - *start).ticks()
}

/// Relies on `std::hint::black_box`: an identity function that the
/// optimizer must treat as opaque, so a value passed through it counts
/// as used and the computation that produced it cannot be elided.
#[verifier::external_body]
pub fn black_box<T>(value: T) -> (r: T)
    ensures
        r == value,
{
    std::hint::black_box(value)
}

/// A benchmark workload. The engine invokes `run` repeatedly — untimed
/// during warm-up, then `iterations` invocations back to back inside
/// each timed sample — and passes every returned value through the
/// opaque sink `black_box`, so the work that produced it cannot be
/// optimized away.
pub trait Workload {
    /// What one invocation produces; retained only for the anti-elision
    /// guarantee.
    type Output;

    /// One invocation of the workload.
    fn run(&mut self) -> Self::Output;
}

/// Why the sampling loop stopped.
#[derive(Clone, Copy, Debug, PartialEq, Eq, Structural)]
pub enum StopReason {
    /// Enough samples were collected and their relative standard
    /// deviation fell strictly below the configured threshold.
    Converged,
    /// The wall-clock budget was met or exceeded, whether or not
    /// `min_samples` had been reached.
    TimedOut,
    /// The sample cap was reached without either of the above.
    Exhausted,
}

/// The elapsed tick counts of a sequence of results, in order.
pub open spec fn ticks_of(s: Seq<BenchResult>) -> Seq<u64> {
    s.map_values(|r: BenchResult| r.elapsed_ticks)
}

/// The stopping decision evaluated after every sample beyond the first,
/// in order: convergence is consulted first, then the wall-clock
/// budget. A budget that has been met or exceeded stops the run no
/// matter how few samples were collected — the sample count plays no
/// part in this decision — and an unset budget never stops it.
pub fn stop_decision(converged_now: bool, budget_secs: Option<u64>, elapsed_secs: u64) -> (r:
    Option<StopReason>)
    ensures
        (r == Some(StopReason::Converged)) <==> converged_now,
        (r == Some(StopReason::TimedOut)) <==> (!converged_now && (budget_secs matches Some(b)
            && elapsed_secs >= b)),
        (r is None) <==> (!converged_now && !(budget_secs matches Some(b) && elapsed_secs >= b)),
        r != Some(StopReason::Exhausted),
{
    if converged_now {
        Some(StopReason::Converged)
    } else {
        match budget_secs {
            Some(b) => {
                if elapsed_secs >= b {
                    Some(StopReason::TimedOut)
                } else {
                    None
                }
            },
            None => None,
        }
    }
}

/// A benchmarking environment: the timer provider's clock, plus the
/// tick rate recovered from it once at construction and shared by every
/// result the environment produces.
pub struct Bench {
    clock: precision::Precision,
    ticks_per_sec: u64,
}

impl Bench {
    /// The recovered tick rate can serve as a divisor.
    pub closed spec fn wf(self) -> bool {
        self.ticks_per_sec >= 1
    }

    /// The tick rate this environment interprets measurements with.
    pub closed spec fn spec_ticks_per_sec(self) -> u64 {
        self.ticks_per_sec
    }

    /// Creates a benchmarking environment. Returns `None` when the
    /// timer provider cannot supply a calibrated clock: the engine
    /// never starts a run without a working timer.
    ///
    /// The tick rate is recovered from the provider's whole-seconds
    /// conversion of `u64::MAX` ticks; the recovery is exact whenever
    /// the square of the true rate is at most `u64::MAX`, which covers
    /// every hardware counter rate in practice.
    pub fn new() -> (r: Option<Bench>)
        ensures
            r matches Some(b) ==> b.wf(),
    {
        match timer_setup() {
            None => None,
            Some((clock, probe)) => {
                proof {
                    lemma_div_non_zero(u64::MAX as int, probe as int);
                }
                let ticks_per_sec = u64::MAX / probe;
                Some(Bench { clock, ticks_per_sec })
            },
        }
    }

    /// Runs `options.iterations` workload invocations back to back,
    /// passing each result through the opaque sink, and measures the
    /// elapsed ticks once around the whole block.
    fn run_once<W: Workload>(&self, options: &Options, w: &mut W) -> (r: BenchResult)
        requires
            self.wf(),
        ensures
            r.wf(),
            r.ticks_per_sec == self.ticks_per_sec,
            r.options == *options,
    {
        let start = timer_now(&self.clock);
        let iterations = options.iterations;
        let mut k: u64 = 0;
        while k < iterations
            invariant
                k <= iterations,
            decreases iterations - k,
        {
            black_box(w.run());
            k = k + 1;
        }
        let elapsed_ticks = ticks_since(&self.clock, &start);
        BenchResult { elapsed_ticks, ticks_per_sec: self.ticks_per_sec, options: *options }
    }

    /// The timed sampling loop. Collects one sample, then after each
    /// further sample consults `stop_decision`; the loop ends naturally
    /// once `max_samples` (clamped to at least 1) samples exist. So:
    /// at least one sample is always collected; never more than the
    /// cap; and fewer than `min_samples` (or the cap, where that is
    /// smaller) only when the wall-clock budget struck first.
    pub fn collect_samples<W: Workload>(&self, options: &Options, w: &mut W) -> (r: (
        Vec<BenchResult>,
        StopReason,
    ))
        requires
            self.wf(),
            options.wf(),
        ensures
            ({
                let (samples, reason) = r;
                &&& 1 <= samples@.len() <= options.effective_max_samples()
                &&& forall|i: int|
                    0 <= i < samples@.len() ==> {
                        &&& (#[trigger] samples@[i]).wf()
                        &&& samples@[i].ticks_per_sec == self.spec_ticks_per_sec()
                        &&& samples@[i].options == *options
                    }
                &&& (reason == StopReason::Exhausted ==> samples@.len()
                    == options.effective_max_samples())
                &&& (reason == StopReason::Converged ==> stats_fit(
                    ticks_of(samples@),
                    options.max_rsd_hundredths as int,
                ) && converged(
                    ticks_of(samples@),
                    options.min_samples as int,
                    options.max_rsd_hundredths as int,
                ))
                &&& (reason == StopReason::TimedOut ==> options.max_duration is Some
                    && samples@.len() >= 2)
                &&& (samples@.len() < options.min_samples && samples@.len()
                    < options.effective_max_samples() ==> reason == StopReason::TimedOut)
            }),
    {
        let max_eff: usize = if options.max_samples == 0 {
            1
        } else {
            options.max_samples
        };
        let mut samples: Vec<BenchResult> = Vec::new();
        let mut ticks: Vec<u64> = Vec::new();
        let start = timer_now(&self.clock);
        loop
            invariant
                self.wf(),
                options.wf(),
                max_eff == options.effective_max_samples(),
                samples@.len() < max_eff,
                ticks@ == ticks_of(samples@),
                forall|i: int|
                    0 <= i < samples@.len() ==> {
                        &&& (#[trigger] samples@[i]).wf()
                        &&& samples@[i].ticks_per_sec == self.spec_ticks_per_sec()
                        &&& samples@[i].options == *options
                    },
            decreases max_eff - samples@.len(),
        {
            let sample = self.run_once(options, w);
            ticks.push(sample.elapsed_ticks);
            samples.push(sample);
            proof {
                assert(ticks@ =~= ticks_of(samples@));
            }
            if samples.len() >= 2 {
                let converged_now = convergence_check(
                    &ticks,
                    options.min_samples,
                    options.max_rsd_hundredths,
                );
                let elapsed_secs = match options.max_duration {
                    Some(_) => {
                        let waited = ticks_since(&self.clock, &start);
                        waited / self.ticks_per_sec
                    },
                    None => 0,
                };
                match stop_decision(converged_now, options.max_duration, elapsed_secs) {
                    Some(reason) => {
                        return (samples, reason);
                    },
                    None => {},
                }
            }
            if samples.len() >= max_eff {
                return (samples, StopReason::Exhausted);
            }
        }
    }

    /// Runs a full benchmark: `warmup_iterations` untimed invocations
    /// (each passed through the opaque sink, so warm-up work is not
    /// elided either), then the adaptive sampling loop, then selection
    /// of the fastest sample. Always returns a result — at least one
    /// sample is produced even when the cap is supplied as zero or the
    /// budget is tiny — carrying this environment's tick rate and a
    /// snapshot of the configuration.
    pub fn run<W: Workload>(&self, options: &Options, w: &mut W) -> (r: BenchResult)
        requires
            self.wf(),
            options.wf(),
        ensures
            r.wf(),
            r.ticks_per_sec == self.spec_ticks_per_sec(),
            r.options == *options,
    {
        let warmup = options.warmup_iterations;
        let mut k: u64 = 0;
        while k < warmup
            invariant
                k <= warmup,
            decreases warmup - k,
        {
            black_box(w.run());
            k = k + 1;
        }
        let (samples, _reason) = self.collect_samples(options, w);
        min_result(&samples)
    }
}

} // verus!
