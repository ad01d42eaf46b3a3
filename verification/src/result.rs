use crate::options::Options;
use vstd::arithmetic::div_mod::{lemma_div_denominator, lemma_div_multiples_vanish_quotient};
use vstd::prelude::*;

verus! {

/// One benchmark measurement: the elapsed ticks of a block of
/// `options.iterations` workload invocations, together with the tick
/// rate that interprets them and a snapshot of the configuration that
/// produced the measurement.
#[derive(Clone, Copy, Debug)]
pub struct BenchResult {
    /// Elapsed ticks measured around the whole block.
    pub elapsed_ticks: u64,
    /// Ticks per second of the clock that measured them; at least 1.
    pub ticks_per_sec: u64,
    /// The configuration under which the measurement was taken.
    pub options: Options,
}

impl BenchResult {
    /// A result is well formed when its tick rate can serve as a
    /// divisor.
    pub open spec fn wf(self) -> bool {
        self.ticks_per_sec >= 1
    }

    /// The elapsed time in whole seconds: ticks divided by the tick
    /// rate, truncated.
    pub open spec fn spec_as_secs(self) -> int {
        (self.elapsed_ticks as int) / (self.ticks_per_sec as int)
    }

    /// The elapsed time in whole milliseconds, truncated, saturating at
    /// `u64::MAX` when it cannot be represented.
    pub open spec fn spec_as_millis(self) -> int {
        let q = (self.elapsed_ticks * 1_000) / (self.ticks_per_sec as int);
        if q > u64::MAX {
            u64::MAX as int
        } else {
            q
        }
    }

    /// The elapsed time in whole nanoseconds, truncated, saturating at
    /// `u64::MAX` when it cannot be represented.
    pub open spec fn spec_as_ns(self) -> int {
        let q = (self.elapsed_ticks * 1_000_000_000) / (self.ticks_per_sec as int);
        if q > u64::MAX {
            u64::MAX as int
        } else {
            q
        }
    }

    /// Constructs a result from its parts. The engine builds results
    /// out of its own measurements; this lets callers and tests build
    /// one from known values.
    pub fn from_parts(elapsed_ticks: u64, ticks_per_sec: u64, options: Options) -> (r:
        BenchResult)
        requires
            ticks_per_sec >= 1,
        ensures
            r == (BenchResult { elapsed_ticks, ticks_per_sec, options }),
            r.wf(),
    {
        BenchResult { elapsed_ticks, ticks_per_sec, options }
    }

    /// The number of ticks measured.
    pub fn ticks(&self) -> (r: u64)
        ensures
            r == self.elapsed_ticks,
    {
        self.elapsed_ticks
    }

    /// The elapsed time in whole seconds.
    pub fn as_secs(&self) -> (r: u64)
        requires
            self.wf(),
        ensures
            r == self.spec_as_secs(),
    {
        self.elapsed_ticks / self.ticks_per_sec
    }

    /// The elapsed time in whole milliseconds, saturating at
    /// `u64::MAX`.
    pub fn as_millis(&self) -> (r: u64)
        requires
            self.wf(),
        ensures
            r == self.spec_as_millis(),
    {
        let q = (self.elapsed_ticks as u128) * 1_000 / (self.ticks_per_sec as u128);
        if q > u64::MAX as u128 {
            u64::MAX
        } else {
            q as u64
        }
    }

    /// The elapsed time in whole nanoseconds, saturating at `u64::MAX`.
    pub fn as_ns(&self) -> (r: u64)
        requires
            self.wf(),
        ensures
            r == self.spec_as_ns(),
    {
        let q = (self.elapsed_ticks as u128) * 1_000_000_000 / (self.ticks_per_sec as u128);
        if q > u64::MAX as u128 {
            u64::MAX
        } else {
            q as u64
        }
    }

    /// What merging two results yields: the elapsed times added, the
    /// left operand's tick rate and configuration kept.
    pub open spec fn spec_merge(self, other: BenchResult) -> BenchResult {
        BenchResult {
            elapsed_ticks: (self.elapsed_ticks + other.elapsed_ticks) as u64,
            ticks_per_sec: self.ticks_per_sec,
            options: self.options,
        }
    }

    /// Combines two results by adding their elapsed times, keeping the
    /// left operand's configuration. Defined only between results
    /// measured under the same tick rate: adding tick counts taken
    /// against different clocks would mean nothing.
    pub fn merge(self, other: BenchResult) -> (r: BenchResult)
        requires
            self.ticks_per_sec == other.ticks_per_sec,
            self.elapsed_ticks + other.elapsed_ticks <= u64::MAX,
        ensures
            r == self.spec_merge(other),
            r.elapsed_ticks == self.elapsed_ticks + other.elapsed_ticks,
            r.ticks_per_sec == self.ticks_per_sec,
            r.options == self.options,
    {
        BenchResult {
            elapsed_ticks: self.elapsed_ticks + other.elapsed_ticks,
            ticks_per_sec: self.ticks_per_sec,
            options: self.options,
        }
    }

    /// The throughput for a given volume of data, unadorned by a unit.
    /// `volume` is the number of bytes processed by a single workload
    /// invocation; the total volume covers the `iterations` invocations
    /// folded into this result's timed block.
    pub fn throughput(self, volume: u128) -> (r: Throughput)
        requires
            volume * self.options.iterations <= u128::MAX,
        ensures
            r.volume == volume * self.options.iterations,
            r.unit == Unit::Unitless,
            r.result == self,
    {
        Throughput {
            volume: volume * (self.options.iterations as u128),
            result: self,
            unit: Unit::Unitless,
        }
    }

    /// The throughput in bits for a given volume of data. `volume` is
    /// the number of bytes processed by a single workload invocation;
    /// the total is multiplied by 8 and tagged as bits.
    pub fn throughput_bits(self, volume: u128) -> (r: Throughput)
        requires
            volume * self.options.iterations * 8 <= u128::MAX,
        ensures
            r.volume == volume * self.options.iterations * 8,
            r.unit == Unit::Bits,
            r.result == self,
    {
        Throughput {
            volume: volume * (self.options.iterations as u128) * 8,
            result: self,
            unit: Unit::Bits,
        }
    }

    /// The throughput in bytes for a given volume of data. `volume` is
    /// the number of bytes processed by a single workload invocation;
    /// the total keeps a multiplier of 1 and is tagged as bytes.
    pub fn throughput_bytes(self, volume: u128) -> (r: Throughput)
        requires
            volume * self.options.iterations <= u128::MAX,
        ensures
            r.volume == volume * self.options.iterations,
            r.unit == Unit::Bytes,
            r.result == self,
    {
        Throughput {
            volume: volume * (self.options.iterations as u128),
            result: self,
            unit: Unit::Bytes,
        }
    }
}

/// The unit a throughput is denominated in.
#[derive(Clone, Copy, Debug, PartialEq, Eq, Structural)]
pub enum Unit {
    /// An unadorned rate.
    Unitless,
    /// Bytes per second.
    Bytes,
    /// Bits per second.
    Bits,
}

/// The magnitude bucket a throughput rate falls in, which picks the
/// suffix a renderer shows: rates under 1,000 print bare, rates up to
/// 999,999 in kilo-units, rates up to 999,999,999 in mega-units, and
/// everything above in giga-units.
#[derive(Clone, Copy, Debug, PartialEq, Eq, Structural)]
pub enum Magnitude {
    /// Under 1,000: a bare per-second rate.
    Base,
    /// 1,000 to 999,999: kilo-units.
    Kilo,
    /// 1,000,000 to 999,999,999: mega-units.
    Mega,
    /// 1,000,000,000 and above: giga-units.
    Giga,
}

/// The result of a benchmark, as a throughput: a total data volume over
/// the elapsed time of the fastest sample.
#[derive(Clone, Copy, Debug)]
pub struct Throughput {
    /// Total volume moved during the result's timed block, already
    /// multiplied by the iteration count and, for a bit-denominated
    /// throughput, by 8.
    pub volume: u128,
    /// The measurement the rate is computed against.
    pub result: BenchResult,
    /// How the rate is denominated.
    pub unit: Unit,
}

impl Throughput {
    /// The rate per second: volume scaled to nanoseconds over the
    /// elapsed nanoseconds, guarded against an elapsed time of zero
    /// when the measurement underflows the timer's resolution.
    pub open spec fn spec_rate(self) -> int {
        let ns = if self.result.spec_as_ns() >= 1 {
            self.result.spec_as_ns()
        } else {
            1
        };
        (self.volume * 1_000_000_000) / ns
    }

    /// Whether the rate computation stays within 128-bit arithmetic.
    pub open spec fn rate_fits(self) -> bool {
        self.volume * 1_000_000_000 <= u128::MAX
    }

    /// The throughput as an integer count per second.
    pub fn as_u128(&self) -> (r: u128)
        requires
            self.result.wf(),
            self.rate_fits(),
        ensures
            r == self.spec_rate(),
    {
        let ns = self.result.as_ns();
        let denom: u128 = if ns == 0 {
            1
        } else {
            ns as u128
        };
        (self.volume * 1_000_000_000) / denom
    }

    /// The magnitude bucket of the rate, as an integer count per
    /// second.
    pub fn magnitude(&self) -> (r: Magnitude)
        requires
            self.result.wf(),
            self.rate_fits(),
        ensures
            (r == Magnitude::Base) <==> self.spec_rate() < 1_000,
            (r == Magnitude::Kilo) <==> (1_000 <= self.spec_rate() < 1_000_000),
            (r == Magnitude::Mega) <==> (1_000_000 <= self.spec_rate() < 1_000_000_000),
            (r == Magnitude::Giga) <==> self.spec_rate() >= 1_000_000_000,
    {
        let rate = self.as_u128();
        if rate < 1_000 {
            Magnitude::Base
        } else if rate < 1_000_000 {
            Magnitude::Kilo
        } else if rate < 1_000_000_000 {
            Magnitude::Mega
        } else {
            Magnitude::Giga
        }
    }
}

/// Merging results is associative: as long as the combined elapsed time
/// fits the tick counter's width, combining three compatible results
/// groups either way, so independently measured benchmark results can
/// be folded together in any order.
pub proof fn lemma_merge_associative(a: BenchResult, b: BenchResult, c: BenchResult)
    requires
        a.ticks_per_sec == b.ticks_per_sec,
        b.ticks_per_sec == c.ticks_per_sec,
        a.elapsed_ticks + b.elapsed_ticks + c.elapsed_ticks <= u64::MAX,
    ensures
        a.spec_merge(b).spec_merge(c) == a.spec_merge(b.spec_merge(c)),
        a.options == a.spec_merge(b).spec_merge(c).options,
{
}

/// The unit conversions of a result agree with one another: whenever
/// the finer-grained value does not saturate, dividing the nanosecond
/// count by 10⁹, or the millisecond count by 10³, gives exactly the
/// whole-seconds count. Saturated conversions are excluded: once a
/// count is clamped to `u64::MAX` it no longer carries the quotient.
pub proof fn lemma_conversions_agree(r: BenchResult)
    requires
        r.wf(),
        r.elapsed_ticks * 1_000_000_000 / (r.ticks_per_sec as int) <= u64::MAX,
    ensures
        r.spec_as_ns() / 1_000_000_000 == r.spec_as_secs(),
        r.spec_as_millis() / 1_000 == r.spec_as_secs(),
{
    let t = r.elapsed_ticks as int;
    let f = r.ticks_per_sec as int;
    assert(t * 1_000 / f <= t * 1_000_000_000 / f) by (nonlinear_arith)
        requires
            t >= 0,
            f >= 1,
    ;
    lemma_div_denominator(t * 1_000_000_000, f, 1_000_000_000);
    lemma_div_multiples_vanish_quotient(1_000_000_000, t, f);
    assert(t * 1_000_000_000 == 1_000_000_000 * t) by (nonlinear_arith);
    assert(f * 1_000_000_000 == 1_000_000_000 * f) by (nonlinear_arith);
    lemma_div_denominator(t * 1_000, f, 1_000);
    lemma_div_multiples_vanish_quotient(1_000, t, f);
    assert(t * 1_000 == 1_000 * t) by (nonlinear_arith);
    assert(f * 1_000 == 1_000 * f) by (nonlinear_arith);
}

/// Selects the reported result among the collected samples: the one
/// with the smallest elapsed time in nanoseconds — not the mean, not
/// the last — with ties broken by first occurrence. The fastest sample
/// best approximates steady-state performance once transient
/// interference is excluded.
pub fn min_result(samples: &Vec<BenchResult>) -> (r: BenchResult)
    requires
        samples@.len() >= 1,
        forall|i: int| 0 <= i < samples@.len() ==> (#[trigger] samples@[i]).wf(),
    ensures
        forall|i: int|
            0 <= i < samples@.len() ==> r.spec_as_ns() <= (#[trigger] samples@[i]).spec_as_ns(),
        exists|j: int|
            {
                &&& 0 <= j < samples@.len()
                &&& r == samples@[j]
                &&& forall|i: int|
                    0 <= i < j ==> (#[trigger] samples@[i]).spec_as_ns() > samples@[j].spec_as_ns()
            },
{
    let mut best = samples[0];
    let mut best_ns = best.as_ns();
    let mut best_idx: Ghost<int> = Ghost(0);
    let mut i: usize = 1;
    while i < samples.len()
        invariant
            1 <= i <= samples@.len(),
            forall|k: int| 0 <= k < samples@.len() ==> (#[trigger] samples@[k]).wf(),
            0 <= best_idx@ < i,
            best == samples@[best_idx@],
            best_ns == best.spec_as_ns(),
            forall|k: int| 0 <= k < i ==> best_ns <= (#[trigger] samples@[k]).spec_as_ns(),
            forall|k: int|
                0 <= k < best_idx@ ==> (#[trigger] samples@[k]).spec_as_ns() > best_ns,
        decreases samples@.len() - i,
    {
        let ns = samples[i].as_ns();
        if ns < best_ns {
            best = samples[i];
            best_ns = ns;
            best_idx = Ghost(i as int);
        }
        i = i + 1;
    }
    proof {
        assert(0 <= best_idx@ < samples@.len() && best == samples@[best_idx@]
            && forall|k: int|
            0 <= k < best_idx@ ==> (#[trigger] samples@[k]).spec_as_ns()
                > samples@[best_idx@].spec_as_ns());
    }
    best
}

} // verus!
