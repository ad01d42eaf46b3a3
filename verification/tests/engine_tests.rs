use benchtime::convergence_check;
use benchtime::min_result;
use benchtime::stop_decision;
use benchtime::Bench;
use benchtime::BenchResult;
use benchtime::Options;
use benchtime::StopReason;
use benchtime::Workload;

/// A small deterministic spin of arithmetic, so each invocation does
/// work the optimizer cannot fold away and a sample takes measurable
/// time.
struct SpinWork {
    acc: u64,
}

impl Workload for SpinWork {
    type Output = u64;

    fn run(&mut self) -> u64 {
        let mut x = self.acc ^ 0x9e37_79b9_7f4a_7c15;
        for i in 0..10_000u64 {
            x = x.wrapping_mul(6_364_136_223_846_793_005).wrapping_add(i);
        }
        self.acc = x;
        x
    }
}

#[test]
fn sample_counts_stay_between_the_configured_bounds() {
    let bench = Bench::new().expect("the timer provider must calibrate");
    let mut w = SpinWork { acc: 1 };

    // Without a wall-clock budget the loop can only stop converged or
    // exhausted, so it collects between min_samples and max_samples
    // samples.
    let mut options = Options::default();
    options.min_samples = 3;
    options.max_samples = 5;
    options.max_rsd_hundredths = 10_000;
    let (samples, reason) = bench.collect_samples(&options, &mut w);
    assert_ne!(reason, StopReason::TimedOut);
    assert!(samples.len() >= 3, "collected {}", samples.len());
    assert!(samples.len() <= 5, "collected {}", samples.len());

    // A sample cap supplied as zero is clamped to one sample, never
    // zero.
    let mut clamped = Options::default();
    clamped.min_samples = 1;
    clamped.max_samples = 0;
    clamped.max_rsd_hundredths = 0;
    let (samples, reason) = bench.collect_samples(&clamped, &mut w);
    assert_eq!(samples.len(), 1);
    assert_eq!(reason, StopReason::Exhausted);

    // A fixed two-sample configuration collects exactly two samples,
    // and the reported result is the fastest of them.
    let mut two = Options::default();
    two.iterations = 1;
    two.warmup_iterations = 0;
    two.min_samples = 2;
    two.max_samples = 2;
    two.max_rsd_hundredths = 10_000;
    two.max_duration = None;
    let (samples, reason) = bench.collect_samples(&two, &mut w);
    assert_eq!(samples.len(), 2);
    assert_ne!(reason, StopReason::TimedOut);
    let fastest = samples.iter().map(BenchResult::ticks).min().unwrap();
    assert_eq!(min_result(&samples).ticks(), fastest);

    // The full run keeps the configuration snapshot on the result.
    let mut configured = Options::default();
    configured.iterations = 4;
    configured.warmup_iterations = 2;
    configured.max_rsd_hundredths = 10_000;
    let result = bench.run(&configured, &mut w);
    assert_eq!(result.options.iterations, 4);
    assert_eq!(result.options.warmup_iterations, 2);
}

#[test]
fn an_exhausted_budget_stops_before_min_samples_without_an_error() {
    let bench = Bench::new().expect("the timer provider must calibrate");
    let mut w = SpinWork { acc: 2 };

    // A zero-second budget is already exhausted at the first check, so
    // the loop stops after the second sample, well short of
    // min_samples, and still reports a result.
    let mut options = Options::default();
    options.min_samples = 5;
    options.max_samples = 5;
    options.max_rsd_hundredths = 0;
    options.max_duration = Some(0);
    let (samples, reason) = bench.collect_samples(&options, &mut w);
    assert_eq!(reason, StopReason::TimedOut);
    assert_eq!(samples.len(), 2);
    let result = bench.run(&options, &mut w);
    assert_eq!(result.options.max_duration, Some(0));
}

#[test]
fn the_opaque_sink_returns_its_argument_unchanged() {
    assert_eq!(benchtime::black_box(42u64), 42);
    assert_eq!(benchtime::black_box(String::from("kept")), "kept");
}

#[test]
fn a_steady_synthetic_workload_converges_at_the_sample_cap() {
    // The fixed scenario, replayed through the engine's own decision
    // pieces with a simulated steady 10ms workload: two samples are the
    // cap, their relative standard deviation is 0 and thus strictly
    // below the 100% threshold, and the reported result is about 10ms.
    let rate: u64 = 1_000_000_000;
    let ten_ms: u64 = 10_000_000;
    let mut options = Options::default();
    options.iterations = 1;
    options.warmup_iterations = 0;
    options.min_samples = 2;
    options.max_samples = 2;
    options.max_rsd_hundredths = 10_000;
    options.max_duration = None;

    let ticks = vec![ten_ms, ten_ms];
    let converged_now = convergence_check(&ticks, options.min_samples, options.max_rsd_hundredths);
    assert!(converged_now);
    assert_eq!(
        stop_decision(converged_now, options.max_duration, 0),
        Some(StopReason::Converged)
    );
    let samples = vec![
        BenchResult::from_parts(ten_ms, rate, options),
        BenchResult::from_parts(ten_ms, rate, options),
    ];
    let best = min_result(&samples);
    assert_eq!(best.as_millis(), 10);
    assert_eq!(best.as_ns(), 10_000_000);
}
