use vstd::arithmetic::mul::lemma_mul_upper_bound;
use vstd::prelude::*;

verus! {

/// Sum of a sequence of tick counts, as a mathematical integer.
pub open spec fn sum_of(s: Seq<u64>) -> int
    decreases s.len(),
{
    if s.len() == 0 {
        0
    } else {
        sum_of(s.drop_last()) + s.last()
    }
}

/// The square of an integer.
pub open spec fn sq(x: int) -> int {
    x * x
}

/// With `n` and `t` held fixed, the sum over the elements `v` of `s` of
/// `(n·v − t)²`.
pub open spec fn scaled_dev_sum(s: Seq<u64>, n: int, t: int) -> int
    decreases s.len(),
{
    if s.len() == 0 {
        0
    } else {
        scaled_dev_sum(s.drop_last(), n, t) + sq(n * s.last() - t)
    }
}

/// `n²` times the sum of squared deviations of the samples from their
/// mean: with `n` the number of samples and `t` their sum,
/// `Σ (n·v − t)² == n² · Σ (v − t/n)²`. Working at this scale keeps the
/// whole statistic in integers.
pub open spec fn dev_sq(s: Seq<u64>) -> int {
    scaled_dev_sum(s, s.len() as int, sum_of(s))
}

/// The strict comparison "sample relative standard deviation of `s` is
/// below `h` hundredths of a percent", with every denominator cleared.
///
/// For `n ≥ 2` samples with sum `t > 0`, the sample standard deviation
/// is `sqrt(Σ(v − t/n)² / (n−1))` — the unbiased `n−1` divisor, not the
/// population one — and the relative standard deviation in percent is
/// that divided by the mean `t/n` and multiplied by 100. The strict
/// bound "rsd < h/100 percent" is `10⁴·std < h·mean`; both sides are
/// non-negative, so squaring preserves it, and scaling by `n²·(n−1)`
/// clears every denominator, leaving the integer inequality below.
pub open spec fn rsd_strictly_below(s: Seq<u64>, h: int) -> bool {
    100_000_000 * dev_sq(s) < h * h * sum_of(s) * sum_of(s) * (s.len() - 1)
}

/// The convergence predicate of the sampling engine: at least two
/// samples, at least `min_samples` of them, a positive mean (an
/// all-zero measurement never converges, rather than dividing by zero),
/// and a relative standard deviation strictly below `h` hundredths of a
/// percent. A sequence whose relative standard deviation exactly equals
/// the threshold does not converge.
pub open spec fn converged(s: Seq<u64>, min_samples: int, h: int) -> bool {
    &&& s.len() >= 2
    &&& s.len() >= min_samples
    &&& sum_of(s) > 0
    &&& rsd_strictly_below(s, h)
}

/// Whether the cleared-denominator statistic of `s` stays within the
/// machine's 128-bit integers, intermediate products included. The
/// predicate reports an oversized statistic as "not converged" rather
/// than overflowing.
pub open spec fn stats_fit(s: Seq<u64>, h: int) -> bool {
    let t = sum_of(s);
    let n = s.len() as int;
    &&& dev_sq(s) <= u128::MAX
    &&& 100_000_000 * dev_sq(s) <= u128::MAX
    &&& h * h * t <= u128::MAX
    &&& h * h * t * t <= u128::MAX
    &&& h * h * t * t * (n - 1) <= u128::MAX
}

/// Extending a prefix of `s` by one element adds that element to its sum.
proof fn lemma_sum_take_step(s: Seq<u64>, i: int)
    requires
        0 <= i < s.len(),
    ensures
        sum_of(s.take(i + 1)) == sum_of(s.take(i)) + s[i],
{
    assert(s.take(i + 1).drop_last() =~= s.take(i));
    assert(s.take(i + 1).last() == s[i]);
}

/// Squares are non-negative.
proof fn lemma_sq_nonneg(x: int)
    ensures
        sq(x) >= 0,
{
    assert(x * x >= 0) by (nonlinear_arith);
}

/// A scaled deviation sum is non-negative: every term is a square.
proof fn lemma_scaled_dev_sum_nonneg(s: Seq<u64>, n: int, t: int)
    ensures
        scaled_dev_sum(s, n, t) >= 0,
    decreases s.len(),
{
    if s.len() > 0 {
        lemma_scaled_dev_sum_nonneg(s.drop_last(), n, t);
        lemma_sq_nonneg(n * s.last() - t);
    }
}

/// Extending a prefix of `s` by one element adds that element's squared
/// scaled deviation.
proof fn lemma_scaled_dev_take_step(s: Seq<u64>, n: int, t: int, i: int)
    requires
        0 <= i < s.len(),
    ensures
        scaled_dev_sum(s.take(i + 1), n, t) == scaled_dev_sum(s.take(i), n, t) + sq(n * s[i] - t),
{
    assert(s.take(i + 1).drop_last() =~= s.take(i));
    assert(s.take(i + 1).last() == s[i]);
}

/// A prefix's scaled deviation sum never exceeds the whole sequence's.
proof fn lemma_scaled_dev_take_le(s: Seq<u64>, n: int, t: int, i: int)
    requires
        0 <= i <= s.len(),
    ensures
        scaled_dev_sum(s.take(i), n, t) <= scaled_dev_sum(s, n, t),
    decreases s.len() - i,
{
    if i == s.len() {
        assert(s.take(i) =~= s);
    } else {
        lemma_scaled_dev_take_step(s, n, t, i);
        lemma_sq_nonneg(n * s[i] - t);
        lemma_scaled_dev_take_le(s, n, t, i + 1);
    }
}

/// `s` with every element multiplied by `c`.
pub open spec fn scale_seq(s: Seq<u64>, c: u64) -> Seq<u64> {
    s.map_values(|v: u64| (c * v) as u64)
}

/// Scaling every sample scales the sum.
proof fn lemma_sum_scaled(s: Seq<u64>, c: u64)
    requires
        forall|i: int| 0 <= i < s.len() ==> c * #[trigger] s[i] <= u64::MAX,
    ensures
        sum_of(scale_seq(s, c)) == c * sum_of(s),
    decreases s.len(),
{
    if s.len() == 0 {
        assert(c * sum_of(s) == 0) by (nonlinear_arith)
            requires
                sum_of(s) == 0,
        ;
    } else {
        assert(scale_seq(s, c).drop_last() =~= scale_seq(s.drop_last(), c));
        lemma_sum_scaled(s.drop_last(), c);
        assert(c * (sum_of(s.drop_last()) + s.last()) == c * sum_of(s.drop_last()) + c * s.last())
            by (nonlinear_arith);
    }
}

/// Scaling every sample by `c`, with `n` fixed and the reference sum
/// scaled along, scales the deviation statistic by `c²`.
proof fn lemma_scaled_dev_scaled(s: Seq<u64>, c: u64, n: int, t: int)
    requires
        forall|i: int| 0 <= i < s.len() ==> c * #[trigger] s[i] <= u64::MAX,
    ensures
        scaled_dev_sum(scale_seq(s, c), n, c * t) == c * c * scaled_dev_sum(s, n, t),
    decreases s.len(),
{
    if s.len() == 0 {
        assert(c * c * scaled_dev_sum(s, n, t) == 0) by (nonlinear_arith)
            requires
                scaled_dev_sum(s, n, t) == 0,
        ;
    } else {
        assert(scale_seq(s, c).drop_last() =~= scale_seq(s.drop_last(), c));
        lemma_scaled_dev_scaled(s.drop_last(), c, n, t);
        assert(sq(n * (c * s.last()) - c * t) == c * c * sq(n * s.last() - t)) by (nonlinear_arith);
        assert(c * c * scaled_dev_sum(s.drop_last(), n, t) + c * c * sq(n * s.last() - t) == c * c
            * (scaled_dev_sum(s.drop_last(), n, t) + sq(n * s.last() - t))) by (nonlinear_arith);
    }
}

/// The convergence predicate is scale-invariant: multiplying every
/// sample by the same positive constant neither creates nor destroys
/// convergence. The relative standard deviation divides a spread by a
/// mean, so the unit of measurement cancels — which is why the engine
/// may evaluate the statistic on raw tick counts and reach the same
/// verdict it would on the corresponding elapsed seconds.
pub proof fn lemma_converged_scale_invariant(s: Seq<u64>, c: u64, min_samples: int, h: int)
    requires
        c >= 1,
        forall|i: int| 0 <= i < s.len() ==> c * #[trigger] s[i] <= u64::MAX,
    ensures
        converged(scale_seq(s, c), min_samples, h) == converged(s, min_samples, h),
{
    let scaled = scale_seq(s, c);
    let n = s.len() as int;
    let t = sum_of(s);
    let d = dev_sq(s);
    lemma_sum_scaled(s, c);
    lemma_scaled_dev_scaled(s, c, n, t);
    assert(scaled.len() == s.len());
    assert(sum_of(scaled) == c * t);
    assert(dev_sq(scaled) == c * c * d);
    assert((c * t > 0) == (t > 0)) by (nonlinear_arith)
        requires
            c >= 1,
    ;
    let lhs = 100_000_000 * d;
    let rhs = h * h * t * t * (n - 1);
    assert(100_000_000 * (c * c * d) == c * c * lhs) by (nonlinear_arith)
        requires
            lhs == 100_000_000 * d,
    ;
    assert(h * h * (c * t) * (c * t) * (n - 1) == c * c * rhs) by (nonlinear_arith)
        requires
            rhs == h * h * t * t * (n - 1),
    ;
    assert((c * c * lhs < c * c * rhs) == (lhs < rhs)) by (nonlinear_arith)
        requires
            c >= 1,
    ;
}

/// Sums the tick counts exactly; `u64` values over a `usize`-indexed
/// vector always fit in a `u128`.
fn sum_ticks(samples: &Vec<u64>) -> (r: u128)
    ensures
        r == sum_of(samples@),
{
    let n = samples.len();
    let mut acc: u128 = 0;
    let mut i: usize = 0;
    while i < n
        invariant
            n == samples@.len(),
            i <= n,
            acc == sum_of(samples@.take(i as int)),
            acc <= i * (u64::MAX as int),
        decreases n - i,
    {
        proof {
            lemma_sum_take_step(samples@, i as int);
        }
        acc = acc + (samples[i] as u128);
        i = i + 1;
    }
    proof {
        assert(samples@.take(n as int) =~= samples@);
    }
    acc
}

/// Computes `dev_sq` of the samples exactly, or reports that it exceeds
/// `u128::MAX`.
fn dev_sq_checked(samples: &Vec<u64>, sum: u128) -> (r: Option<u128>)
    requires
        sum == sum_of(samples@),
    ensures
        match r {
            Some(v) => v == dev_sq(samples@),
            None => dev_sq(samples@) > u128::MAX,
        },
{
    let n = samples.len();
    let mut acc: u128 = 0;
    let mut i: usize = 0;
    while i < n
        invariant
            n == samples@.len(),
            i <= n,
            sum == sum_of(samples@),
            acc == scaled_dev_sum(samples@.take(i as int), n as int, sum as int),
        decreases n - i,
    {
        let v = samples[i];
        proof {
            lemma_mul_upper_bound(n as int, u64::MAX as int, v as int, u64::MAX as int);
            assert((u64::MAX as int) * (u64::MAX as int) < u128::MAX as int) by (nonlinear_arith);
        }
        let nv = (n as u128) * (v as u128);
        let d = if nv >= sum {
            nv - sum
        } else {
            sum - nv
        };
        proof {
            lemma_scaled_dev_take_step(samples@, n as int, sum as int, i as int);
            assert(sq((n as int) * (v as int) - sum) == (d as int) * (d as int))
                by (nonlinear_arith)
                requires
                    d == if (n as int) * (v as int) >= sum {
                        (n as int) * (v as int) - sum
                    } else {
                        sum - (n as int) * (v as int)
                    },
            ;
        }
        let dsq = match d.checked_mul(d) {
            Some(x) => x,
            None => {
                proof {
                    lemma_scaled_dev_take_le(samples@, n as int, sum as int, i as int + 1);
                    lemma_scaled_dev_sum_nonneg(samples@.take(i as int), n as int, sum as int);
                }
                return None;
            },
        };
        acc = match acc.checked_add(dsq) {
            Some(x) => x,
            None => {
                proof {
                    lemma_scaled_dev_take_le(samples@, n as int, sum as int, i as int + 1);
                }
                return None;
            },
        };
        i = i + 1;
    }
    proof {
        assert(samples@.take(n as int) =~= samples@);
    }
    Some(acc)
}

/// Decides whether the samples collected so far have converged: at
/// least two of them and at least `min_samples`, a positive mean, and a
/// relative standard deviation strictly below `max_rsd_hundredths`
/// hundredths of a percent. The statistic is computed exactly in
/// integers; when its cleared-denominator form exceeds 128 bits the
/// samples are reported as not converged rather than mis-rounded.
pub fn convergence_check(samples: &Vec<u64>, min_samples: usize, max_rsd_hundredths: u64) -> (r:
    bool)
    ensures
        r == (stats_fit(samples@, max_rsd_hundredths as int) && converged(
            samples@,
            min_samples as int,
            max_rsd_hundredths as int,
        )),
{
    let n = samples.len();
    if n < 2 || n < min_samples {
        return false;
    }
    let sum = sum_ticks(samples);
    if sum == 0 {
        return false;
    }
    let s2 = match dev_sq_checked(samples, sum) {
        Some(v) => v,
        None => {
            return false;
        },
    };
    let lhs = match 100_000_000u128.checked_mul(s2) {
        Some(v) => v,
        None => {
            return false;
        },
    };
    let h = max_rsd_hundredths as u128;
    proof {
        lemma_mul_upper_bound(h as int, u64::MAX as int, h as int, u64::MAX as int);
        assert((u64::MAX as int) * (u64::MAX as int) < u128::MAX as int) by (nonlinear_arith);
    }
    let h2 = h * h;
    let rhs1 = match h2.checked_mul(sum) {
        Some(v) => v,
        None => {
            return false;
        },
    };
    let rhs2 = match rhs1.checked_mul(sum) {
        Some(v) => v,
        None => {
            return false;
        },
    };
    let rhs = match rhs2.checked_mul((n - 1) as u128) {
        Some(v) => v,
        None => {
            return false;
        },
    };
    lhs < rhs
}

} // verus!
