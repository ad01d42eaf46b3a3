use benchtime::min_result;
use benchtime::BenchResult;
use benchtime::Magnitude;
use benchtime::Options;
use benchtime::Unit;

#[test]
fn default_options_match_the_reference_values() {
    let options = Options::default();
    assert_eq!(options.iterations, 1);
    assert_eq!(options.warmup_iterations, 0);
    assert_eq!(options.min_samples, 3);
    assert_eq!(options.max_samples, 5);
    assert_eq!(options.max_rsd_hundredths, 500);
    assert_eq!(options.max_duration, None);
    assert!(!options.verbose);
}

#[test]
fn conversions_truncate_fractional_units() {
    // Two ticks of a three-ticks-per-second clock: 0 whole seconds,
    // 666 whole milliseconds, 666_666_666 whole nanoseconds.
    let r = BenchResult::from_parts(2, 3, Options::default());
    assert_eq!(r.ticks(), 2);
    assert_eq!(r.as_secs(), 0);
    assert_eq!(r.as_millis(), 666);
    assert_eq!(r.as_ns(), 666_666_666);
}

#[test]
fn conversions_saturate_when_the_result_does_not_fit() {
    let r = BenchResult::from_parts(u64::MAX, 1, Options::default());
    assert_eq!(r.as_secs(), u64::MAX);
    assert_eq!(r.as_millis(), u64::MAX);
    assert_eq!(r.as_ns(), u64::MAX);
}

#[test]
fn nanoseconds_preserve_integer_precision() {
    let ticks = (1u64 << 53) + 1;
    let r = BenchResult::from_parts(ticks, 1_000_000_000, Options::default());
    assert_eq!(r.as_ns(), ticks);
}

#[test]
fn nanoseconds_and_float_seconds_agree() {
    // The nanosecond count divided by 1e9 and the elapsed time in
    // floating-point seconds (ticks over rate) agree to within a
    // nanosecond's worth of rounding.
    let cases: [(u64, u64); 4] = [
        (123_456_789, 3_000_000_000),
        (2, 3),
        (1_000_000_000, 1_000_000_000),
        (987_654_321, 24_000_000),
    ];
    for (ticks, rate) in cases {
        let r = BenchResult::from_parts(ticks, rate, Options::default());
        let from_ns = r.as_ns() as f64 / 1e9;
        let seconds_f = ticks as f64 / rate as f64;
        assert!(
            (from_ns - seconds_f).abs() <= 1e-9,
            "{} ticks at {} ticks/s: {} vs {}",
            ticks,
            rate,
            from_ns,
            seconds_f
        );
    }
}

#[test]
fn merge_adds_elapsed_time_and_keeps_the_left_configuration() {
    let mut left_options = Options::default();
    left_options.iterations = 7;
    let mut right_options = Options::default();
    right_options.iterations = 9;
    let a = BenchResult::from_parts(100, 50, left_options);
    let b = BenchResult::from_parts(23, 50, right_options);
    let merged = a.merge(b);
    assert_eq!(merged.ticks(), 123);
    assert_eq!(merged.as_secs(), 2);
    assert_eq!(merged.options.iterations, 7);
}

#[test]
fn merge_groups_either_way() {
    let a = BenchResult::from_parts(10, 50, Options::default());
    let b = BenchResult::from_parts(20, 50, Options::default());
    let c = BenchResult::from_parts(30, 50, Options::default());
    let left_first = a.merge(b).merge(c);
    let right_first = a.merge(b.merge(c));
    assert_eq!(left_first.ticks(), 60);
    assert_eq!(right_first.ticks(), 60);
    assert_eq!(left_first.as_secs(), right_first.as_secs());
}

#[test]
fn throughput_reports_one_kilobyte_per_second_in_the_kilo_bucket() {
    // Ten iterations of 100 bytes each inside a sample that took
    // exactly one second (1e9 ns): 1000 bytes per second, which lands
    // in the 1,000..=999,999 kilo bucket, not the sub-1000 one.
    let mut options = Options::default();
    options.iterations = 10;
    let r = BenchResult::from_parts(1_000_000_000, 1_000_000_000, options);
    assert_eq!(r.as_ns(), 1_000_000_000);
    let tp = r.throughput_bytes(100);
    assert_eq!(tp.unit, Unit::Bytes);
    assert_eq!(tp.as_u128(), 1000);
    assert_eq!(tp.magnitude(), Magnitude::Kilo);
}

#[test]
fn bit_throughput_multiplies_the_volume_by_eight() {
    let mut options = Options::default();
    options.iterations = 10;
    let r = BenchResult::from_parts(1_000_000_000, 1_000_000_000, options);
    let tp = r.throughput_bits(100);
    assert_eq!(tp.unit, Unit::Bits);
    assert_eq!(tp.as_u128(), 8000);
}

#[test]
fn untagged_throughput_keeps_the_volume_as_given() {
    let mut options = Options::default();
    options.iterations = 3;
    let r = BenchResult::from_parts(1_000_000_000, 1_000_000_000, options);
    let tp = r.throughput(50);
    assert_eq!(tp.unit, Unit::Unitless);
    assert_eq!(tp.as_u128(), 150);
    assert_eq!(tp.magnitude(), Magnitude::Base);
}

#[test]
fn throughput_guards_against_a_zero_elapsed_time() {
    // A measurement below the timer's resolution reads as zero
    // nanoseconds; the rate divides by 1 instead.
    let r = BenchResult::from_parts(0, 5, Options::default());
    assert_eq!(r.as_ns(), 0);
    let tp = r.throughput_bytes(1);
    assert_eq!(tp.as_u128(), 1_000_000_000);
    assert_eq!(tp.magnitude(), Magnitude::Giga);
}

#[test]
fn magnitude_buckets_split_at_the_documented_edges() {
    // One second of elapsed time makes the rate equal the volume.
    let one_second = |volume: u128| {
        BenchResult::from_parts(1_000_000_000, 1_000_000_000, Options::default())
            .throughput(volume)
    };
    assert_eq!(one_second(0).magnitude(), Magnitude::Base);
    assert_eq!(one_second(999).magnitude(), Magnitude::Base);
    assert_eq!(one_second(1_000).magnitude(), Magnitude::Kilo);
    assert_eq!(one_second(999_999).magnitude(), Magnitude::Kilo);
    assert_eq!(one_second(1_000_000).magnitude(), Magnitude::Mega);
    assert_eq!(one_second(999_999_999).magnitude(), Magnitude::Mega);
    assert_eq!(one_second(1_000_000_000).magnitude(), Magnitude::Giga);
}

#[test]
fn min_result_reports_the_minimum_not_the_mean_or_last() {
    let mk = |ticks: u64, iterations: u64| {
        let mut options = Options::default();
        options.iterations = iterations;
        BenchResult::from_parts(ticks, 1_000_000_000, options)
    };
    let samples = vec![mk(5, 1), mk(3, 2), mk(7, 3), mk(3, 4), mk(9, 5)];
    let best = min_result(&samples);
    assert_eq!(best.ticks(), 3);
    // Ties break toward the first occurrence: the second sample, not
    // the fourth.
    assert_eq!(best.options.iterations, 2);
}

#[test]
fn min_result_of_a_single_sample_is_that_sample() {
    let samples = vec![BenchResult::from_parts(42, 7, Options::default())];
    assert_eq!(min_result(&samples).ticks(), 42);
}
