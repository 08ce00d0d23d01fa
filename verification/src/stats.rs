//! Online statistics over exact decimal samples.
//!
//! The accumulator keeps the sample count together with the exact sum
//! and the exact sum of squares of every sample ever added, in fixed
//! integer units, so that the mean and the population variance are read
//! back with a single rounding at query time. Over exact decimals this
//! incremental accumulation agrees with a reference two-pass formula;
//! the proof stands in `lemma_variance_two_pass`.

use vstd::prelude::*;
use vstd::arithmetic::div_mod::{lemma_div_multiples_vanish, lemma_fundamental_div_mod};
use crate::decimal::{Decimal, pow10, lemma_pow10_values, lemma_pow10_pos};

verus! {

/// The sum of a sequence of integers.
pub open spec fn seq_sum(s: Seq<int>) -> int
    decreases s.len(),
{
    if s.len() == 0 {
        0
    } else {
        seq_sum(s.drop_last()) + s.last()
    }
}

/// The sum of the squares of a sequence of integers.
pub open spec fn seq_sumsq(s: Seq<int>) -> int
    decreases s.len(),
{
    if s.len() == 0 {
        0
    } else {
        seq_sumsq(s.drop_last()) + s.last() * s.last()
    }
}

/// Division truncated toward zero, for a positive divisor.
pub open spec fn div_trunc(a: int, b: int) -> int {
    if a >= 0 {
        a / b
    } else {
        -((-a) / b)
    }
}

/// Truncating division recovers an exact multiple: so whenever the
/// exact mean (or variance) is representable at the read-back scale,
/// `mean()` (or `variance()`) returns it exactly.
pub proof fn lemma_div_trunc_exact(k: int, b: int)
    requires
        b > 0,
    ensures
        div_trunc(k * b, b) == k,
{
    if k >= 0 {
        lemma_div_multiples_vanish(k, b);
        assert(k * b == b * k) by (nonlinear_arith);
    } else {
        lemma_div_multiples_vanish(-k, b);
        assert(-(k * b) == b * (-k)) by (nonlinear_arith);
        assert(k * b < 0) by (nonlinear_arith)
            requires
                k < 0,
                b > 0,
        ;
    }
}

/// The mean of a sample sequence in `10^-12` units: the exact sum of
/// the samples (in `10^-6` units) divided by their count, truncated
/// toward zero.
pub open spec fn mean_units_of(s: Seq<int>) -> int {
    div_trunc(seq_sum(s) * pow10(6), s.len() as int)
}

/// The population variance of a sample sequence in `10^-12` units:
/// `(n * sum-of-squares - sum^2) / n^2`, truncated.
pub open spec fn variance_units_of(s: Seq<int>) -> int {
    (s.len() as int * seq_sumsq(s) - seq_sum(s) * seq_sum(s)) / (s.len() as int
        * s.len() as int)
}

/// The two-pass reference numerator: the sum of the squared deviations
/// `n * x_i - t`, for a fixed count `n` and fixed total `t`. With
/// `n == s.len()` and `t == seq_sum(s)` each term is `n^2 (x_i - mean)^2`,
/// so this is the population variance scaled by `n^3`.
pub open spec fn dev_sq_sum(s: Seq<int>, n: int, t: int) -> int
    decreases s.len(),
{
    if s.len() == 0 {
        0
    } else {
        dev_sq_sum(s.drop_last(), n, t) + (n * s.last() - t) * (n * s.last() - t)
    }
}

proof fn lemma_dev_sq_sum_expand(s: Seq<int>, n: int, t: int)
    ensures
        dev_sq_sum(s, n, t) == n * n * seq_sumsq(s) - 2 * n * t * seq_sum(s) + s.len() * t * t,
    decreases s.len(),
{
    if s.len() == 0 {
    } else {
        let s0 = s.drop_last();
        let x = s.last();
        lemma_dev_sq_sum_expand(s0, n, t);
        assert((n * x - t) * (n * x - t) == n * n * (x * x) - 2 * n * t * x + t * t)
            by (nonlinear_arith);
        assert(n * n * seq_sumsq(s) == n * n * seq_sumsq(s0) + n * n * (x * x))
            by (nonlinear_arith)
            requires
                seq_sumsq(s) == seq_sumsq(s0) + x * x,
        ;
        assert(2 * n * t * seq_sum(s) == 2 * n * t * seq_sum(s0) + 2 * n * t * x)
            by (nonlinear_arith)
            requires
                seq_sum(s) == seq_sum(s0) + x,
        ;
        assert(s.len() * t * t == s0.len() * t * t + t * t) by (nonlinear_arith)
            requires
                s.len() == s0.len() + 1,
        ;
    }
}

proof fn lemma_dev_sq_sum_nonneg(s: Seq<int>, n: int, t: int)
    ensures
        dev_sq_sum(s, n, t) >= 0,
    decreases s.len(),
{
    if s.len() > 0 {
        lemma_dev_sq_sum_nonneg(s.drop_last(), n, t);
        let d = n * s.last() - t;
        assert(d * d >= 0) by (nonlinear_arith);
    }
}

/// The accumulator's variance numerator `n * seq_sumsq - seq_sum^2`
/// equals, scaled by `n`, the two-pass reference sum of squared
/// deviations from the mean; in particular it is never negative, so the
/// variance is never negative.
pub proof fn lemma_variance_two_pass(s: Seq<int>)
    requires
        s.len() >= 1,
    ensures
        s.len() * (s.len() * seq_sumsq(s) - seq_sum(s) * seq_sum(s)) == dev_sq_sum(s,
            s.len() as int, seq_sum(s)),
        s.len() * seq_sumsq(s) - seq_sum(s) * seq_sum(s) >= 0,
{
    let n = s.len() as int;
    let t = seq_sum(s);
    lemma_dev_sq_sum_expand(s, n, t);
    assert(n * n * seq_sumsq(s) - 2 * n * t * t + n * t * t == n * (n * seq_sumsq(s) - t * t))
        by (nonlinear_arith);
    lemma_dev_sq_sum_nonneg(s, n, t);
    assert(n * (n * seq_sumsq(s) - t * t) >= 0 && n > 0 ==> n * seq_sumsq(s) - t * t >= 0)
        by (nonlinear_arith);
}

proof fn lemma_seq_sum_bound(s: Seq<int>, b: int)
    requires
        b >= 0,
        forall|i: int| 0 <= i < s.len() ==> -b <= #[trigger] s[i] <= b,
    ensures
        -(s.len() * b) <= seq_sum(s) <= s.len() * b,
        0 <= seq_sumsq(s) <= s.len() * (b * b),
    decreases s.len(),
{
    if s.len() == 0 {
    } else {
        let s0 = s.drop_last();
        let x = s.last();
        lemma_seq_sum_bound(s0, b);
        assert(-b <= x <= b);
        assert(x * x <= b * b && x * x >= 0) by (nonlinear_arith)
            requires
                -b <= x <= b,
        ;
        assert(s0.len() * b + b == s.len() * b) by (nonlinear_arith)
            requires
                s.len() == s0.len() + 1,
        ;
        assert(s0.len() * (b * b) + b * b == s.len() * (b * b)) by (nonlinear_arith)
            requires
                s.len() == s0.len() + 1,
        ;
    }
}

/// The largest number of samples an accumulator accepts.
pub open spec fn count_limit() -> int {
    1000000
}

/// Samples must not exceed one million in magnitude (as values), i.e.
/// `10^12` in `10^-6` units, so every accumulator stays inside an `i128`.
pub open spec fn sample_limit() -> int {
    pow10(12)
}

/// A numeric type that offers a square root, possibly failing on
/// negative inputs.
pub trait Sqrt: Sized {
    /// When a value admits the square root operation.
    spec fn sqrt_req(&self) -> bool;

    /// What the square root operation promises of its result.
    spec fn sqrt_post(&self, r: Option<Self>) -> bool;

    /// The square root, or `None` when undefined for this value.
    fn sqrt(&self) -> (r: Option<Self>)
        requires
            self.sqrt_req(),
        ensures
            self.sqrt_post(r),
    ;
}

impl Sqrt for Decimal {
    open spec fn sqrt_req(&self) -> bool {
        self.wf() && self.scale_spec() <= 12
    }

    open spec fn sqrt_post(&self, r: Option<Decimal>) -> bool {
        &&& (r is None <==> self.units() < 0)
        &&& (r matches Some(d) ==> {
            &&& d.wf()
            &&& d.scale_spec() == 6
            &&& d.mantissa_spec() >= 0
            &&& d.mantissa_spec() * d.mantissa_spec() <= self.units_at(12)
            &&& self.units_at(12) < (d.mantissa_spec() + 1) * (d.mantissa_spec() + 1)
        })
    }

    fn sqrt(&self) -> (r: Option<Decimal>) {
        self.sqrt_floor()
    }
}

/// Running mean, variance and standard deviation over every sample
/// ever added, updated in constant time per sample.
#[derive(Clone)]
pub struct Stats {
    size: usize,
    sum: i128,
    sumsq: i128,
    samples: Ghost<Seq<int>>,
}

impl Stats {
    /// Every sample ever added, as an integer count of `10^-6` units.
    pub closed spec fn samples_spec(self) -> Seq<int> {
        self.samples@
    }

    pub closed spec fn size_spec(self) -> int {
        self.size as int
    }

    pub open spec fn wf(self) -> bool {
        &&& self.samples_spec().len() == self.size_spec()
        &&& self.size_spec() <= count_limit()
        &&& forall|i: int| 0 <= i < self.samples_spec().len() ==> -sample_limit()
            <= #[trigger] self.samples_spec()[i] <= sample_limit()
        &&& self.sum_spec() == seq_sum(self.samples_spec())
        &&& self.sumsq_spec() == seq_sumsq(self.samples_spec())
    }

    pub closed spec fn sum_spec(self) -> int {
        self.sum as int
    }

    pub closed spec fn sumsq_spec(self) -> int {
        self.sumsq as int
    }

    /// The mean that `mean()` reads back, in `10^-12` units: the exact
    /// sum of all samples divided by their count, truncated toward zero.
    pub open spec fn spec_mean_units(self) -> int {
        mean_units_of(self.samples_spec())
    }

    /// The population variance that `variance()` reads back, in `10^-12`
    /// units: `(n * sum-of-squares - sum^2) / n^2`, truncated.
    pub open spec fn spec_variance_units(self) -> int {
        variance_units_of(self.samples_spec())
    }

    /// A fresh accumulator with no samples: count, mean and variance zero.
    #[must_use]
    pub fn new() -> (r: Stats)
        ensures
            r.wf(),
            r.size_spec() == 0,
            r.samples_spec() == Seq::<int>::empty(),
    {
        Stats { size: 0, sum: 0, sumsq: 0, samples: Ghost(Seq::empty()) }
    }

    /// The number of samples added so far.
    #[must_use]
    pub fn size(&self) -> (r: usize)
        ensures
            r == self.size_spec(),
    {
        self.size
    }

    /// Folds one sample into the running totals.
    pub fn add(&mut self, sample: Decimal)
        requires
            old(self).wf(),
            old(self).size_spec() < count_limit(),
            sample.wf(),
            sample.scale_spec() <= 6,
            -sample_limit() <= sample.units_at(6) <= sample_limit(),
        ensures
            final(self).wf(),
            final(self).samples_spec() == old(self).samples_spec().push(sample.units_at(6)),
            final(self).size_spec() == old(self).size_spec() + 1,
    {
        let u = sample.units_with_scale(6);
        proof {
            lemma_pow10_values();
            lemma_seq_sum_bound(self.samples@, sample_limit());
            assert(self.samples@.len() * sample_limit() <= count_limit() * sample_limit())
                by (nonlinear_arith)
                requires
                    0 <= self.samples@.len() <= count_limit(),
                    sample_limit() >= 0,
            ;
            assert(self.samples@.len() * (sample_limit() * sample_limit()) <= count_limit()
                * (sample_limit() * sample_limit())) by (nonlinear_arith)
                requires
                    0 <= self.samples@.len() <= count_limit(),
                    sample_limit() * sample_limit() >= 0,
            ;
            assert(u * u <= sample_limit() * sample_limit() && u * u >= 0) by (nonlinear_arith)
                requires
                    -sample_limit() <= u <= sample_limit(),
            ;
            assert(sample_limit() * sample_limit() == pow10(12) * pow10(12));
            assert(pow10(12) * pow10(12) == 1000000000000000000000000) by (nonlinear_arith)
                requires
                    pow10(12) == 1000000000000,
            ;
        }
        let sq = u * u;
        self.sum = self.sum + u;
        self.sumsq = self.sumsq + sq;
        self.size = self.size + 1;
        proof {
            let s1 = self.samples@.push(sample.units_at(6));
            assert(s1.drop_last() =~= old(self).samples@);
            assert(s1.last() == sample.units_at(6));
        }
        self.samples = Ghost(self.samples@.push(sample.units_at(6)));
    }

    /// The arithmetic mean of every sample added so far, truncated to
    /// twelve decimal places (zero while no sample was added). Whenever
    /// the exact mean is representable with twelve decimal places, the
    /// result is exact.
    #[must_use]
    pub fn mean(&self) -> (r: Decimal)
        requires
            self.wf(),
        ensures
            r.wf(),
            r.scale_spec() == 12,
            self.size_spec() == 0 ==> r.mantissa_spec() == 0,
            self.size_spec() > 0 ==> r.mantissa_spec() == self.spec_mean_units(),
    {
        proof {
            lemma_pow10_values();
        }
        if self.size == 0 {
            Decimal::from_mantissa(0, 12)
        } else {
            proof {
                lemma_seq_sum_bound(self.samples@, sample_limit());
            }
            let n = self.size as u128;
            let neg = self.sum < 0;
            let mag: u128 = if neg { (-self.sum) as u128 } else { self.sum as u128 };
            proof {
                let sz = self.size_spec();
                assert(sz * sample_limit() == sz * 1000000000000);
                assert(mag <= sz * 1000000000000);
                assert(sz * 1000000000000 <= 1000000 * 1000000000000);
            }
            let num: u128 = mag * 1000000;
            let q: u128 = num / n;
            proof {
                let sz = self.size_spec();
                assert(num <= sz * 1000000000000000000);
                lemma_div_le_bound(num as int, sz, 1000000000000000000);
            }
            let m: i128 = if neg { -(q as i128) } else { q as i128 };
            proof {
                let ss = seq_sum(self.samples@);
                if neg {
                    assert(mag == -ss);
                    assert((-ss) * pow10(6) == -(ss * pow10(6))) by (nonlinear_arith);
                    assert(num == -(ss * pow10(6)));
                } else {
                    assert(mag == ss);
                    assert(num == ss * pow10(6));
                }
                assert(m == div_trunc(ss * pow10(6), self.size_spec()));
            }
            Decimal::from_mantissa(m, 12)
        }
    }

    /// The population variance of every sample added so far, truncated
    /// to twelve decimal places (zero while no sample was added). Never
    /// negative; whenever the exact population variance is representable
    /// with twelve decimal places, the result is exact. Its agreement
    /// with a reference two-pass formula is `lemma_variance_two_pass`.
    #[must_use]
    pub fn variance(&self) -> (r: Decimal)
        requires
            self.wf(),
        ensures
            r.wf(),
            r.scale_spec() == 12,
            r.mantissa_spec() >= 0,
            self.size_spec() == 0 ==> r.mantissa_spec() == 0,
            self.size_spec() > 0 ==> r.mantissa_spec() == self.spec_variance_units(),
    {
        proof {
            lemma_pow10_values();
        }
        if self.size == 0 {
            Decimal::from_mantissa(0, 12)
        } else {
            proof {
                lemma_seq_sum_bound(self.samples@, sample_limit());
                lemma_variance_two_pass(self.samples@);
                let sz = self.size_spec();
                let ss = seq_sum(self.samples@);
                let qq = seq_sumsq(self.samples@);
                assert(sample_limit() * sample_limit() == 1000000000000000000000000)
                    by (nonlinear_arith)
                    requires
                        sample_limit() == 1000000000000,
                ;
                assert(0 <= sz * qq <= 1000000000000000000000000000000000000)
                    by (nonlinear_arith)
                    requires
                        0 < sz <= 1000000,
                        0 <= qq <= sz * 1000000000000000000000000,
                ;
                assert(0 <= ss * ss <= 1000000000000000000000000000000000000)
                    by (nonlinear_arith)
                    requires
                        -1000000000000000000 <= ss <= 1000000000000000000,
                ;
            }
            let n = self.size as i128;
            let num: i128 = n * self.sumsq - self.sum * self.sum;
            proof {
                let sz = self.size_spec();
                assert(sz * sz <= 1000000000000 && sz * sz >= 1) by (nonlinear_arith)
                    requires
                        0 < sz <= 1000000,
                ;
            }
            let nsq: u128 = (n as u128) * (n as u128);
            let q: u128 = (num as u128) / nsq;
            proof {
                let sz = self.size_spec();
                let qq = seq_sumsq(self.samples@);
                assert(num <= (sz * sz) * 1000000000000000000000000) by (nonlinear_arith)
                    requires
                        num <= sz * qq,
                        qq <= sz * 1000000000000000000000000,
                        0 < sz,
                ;
                lemma_div_le_bound(num as int, sz * sz, 1000000000000000000000000);
            }
            Decimal::from_mantissa(q as i128, 12)
        }
    }

    /// The standard deviation: the square root of the population
    /// variance, truncated to six decimal places. Exact whenever the
    /// variance's square root is representable with six decimal places.
    #[must_use]
    pub fn stddev(&self) -> (r: Decimal)
        requires
            self.wf(),
        ensures
            r.wf(),
            r.scale_spec() == 6,
            r.mantissa_spec() >= 0,
            self.size_spec() == 0 ==> r.mantissa_spec() == 0,
            self.size_spec() > 0 ==> {
                &&& r.mantissa_spec() * r.mantissa_spec() <= self.spec_variance_units()
                &&& self.spec_variance_units() < (r.mantissa_spec() + 1) * (r.mantissa_spec()
                    + 1)
            },
    {
        let v = self.variance();
        proof {
            lemma_pow10_pos(6);
            assert(v.units() == v.mantissa_spec() * pow10(6));
            assert(v.mantissa_spec() >= 0 && pow10(6) >= 1 ==> v.units() >= 0)
                by (nonlinear_arith)
                requires
                    v.units() == v.mantissa_spec() * pow10(6),
            ;
            assert(v.units_at(12) == v.mantissa_spec()) by {
                assert(pow10(0) == 1);
            }
        }
        let r = v.sqrt_floor().unwrap();
        proof {
            if self.size_spec() == 0 {
                assert(r.mantissa_spec() * r.mantissa_spec() <= 0);
                assert(r.mantissa_spec() * r.mantissa_spec() >= 0) by (nonlinear_arith);
                assert(r.mantissa_spec() * r.mantissa_spec() == 0);
                assert(r.mantissa_spec() == 0) by (nonlinear_arith)
                    requires
                        r.mantissa_spec() * r.mantissa_spec() == 0,
                ;
            }
        }
        r
    }
}

impl Default for Stats {
    /// A fresh accumulator, identical to `Stats::new()`.
    fn default() -> (r: Stats)
        ensures
            r.wf(),
            r.size_spec() == 0,
            r.samples_spec() == Seq::<int>::empty(),
    {
        Stats::new()
    }
}

proof fn lemma_div_le_bound(a: int, n: int, b: int)
    requires
        0 <= a,
        0 < n,
        0 <= b,
        a <= n * b,
    ensures
        0 <= a / n <= b,
{
    lemma_fundamental_div_mod(a, n);
    assert(a / n <= b) by (nonlinear_arith)
        requires
            a == n * (a / n) + a % n,
            0 <= a % n,
            a <= n * b,
            0 < n,
    ;
    assert(a / n >= 0) by (nonlinear_arith)
        requires
            a == n * (a / n) + a % n,
            a % n < n,
            0 <= a,
            0 < n,
    ;
}

/// The arithmetic mean of a finite sequence of samples.
pub fn mean(samples: &Vec<Decimal>) -> (r: Decimal)
    requires
        samples@.len() <= count_limit(),
        forall|i: int| 0 <= i < samples@.len() ==> sample_ok(#[trigger] samples@[i]),
    ensures
        r.wf(),
        r.scale_spec() == 12,
        samples@.len() == 0 ==> r.mantissa_spec() == 0,
        samples@.len() > 0 ==> r.mantissa_spec() == mean_units_of(units6_seq(samples@)),
{
    let stats = collect_stats(samples);
    stats.mean()
}

/// The population variance of a finite sequence of samples.
pub fn variance(samples: &Vec<Decimal>) -> (r: Decimal)
    requires
        samples@.len() <= count_limit(),
        forall|i: int| 0 <= i < samples@.len() ==> sample_ok(#[trigger] samples@[i]),
    ensures
        r.wf(),
        r.scale_spec() == 12,
        r.mantissa_spec() >= 0,
        samples@.len() == 0 ==> r.mantissa_spec() == 0,
        samples@.len() > 0 ==> r.mantissa_spec() == variance_units_of(units6_seq(samples@)),
{
    let stats = collect_stats(samples);
    stats.variance()
}

/// The population standard deviation of a finite sequence of samples.
pub fn stddev(samples: &Vec<Decimal>) -> (r: Decimal)
    requires
        samples@.len() <= count_limit(),
        forall|i: int| 0 <= i < samples@.len() ==> sample_ok(#[trigger] samples@[i]),
    ensures
        r.wf(),
        r.scale_spec() == 6,
        r.mantissa_spec() >= 0,
        samples@.len() == 0 ==> r.mantissa_spec() == 0,
        samples@.len() > 0 ==> {
            &&& r.mantissa_spec() * r.mantissa_spec() <= variance_units_of(units6_seq(
                samples@))
            &&& variance_units_of(units6_seq(samples@)) < (r.mantissa_spec() + 1) * (
            r.mantissa_spec() + 1)
        },
{
    let stats = collect_stats(samples);
    stats.stddev()
}

/// What a statistical sample must satisfy: a well-formed decimal of at
/// most six decimal places, at most one million in magnitude.
pub open spec fn sample_ok(d: Decimal) -> bool {
    &&& d.wf()
    &&& d.scale_spec() <= 6
    &&& -sample_limit() <= d.units_at(6) <= sample_limit()
}

/// A sequence of decimal samples as their integer counts of `10^-6` units.
pub open spec fn units6_seq(s: Seq<Decimal>) -> Seq<int> {
    s.map_values(|d: Decimal| d.units_at(6))
}

fn collect_stats(samples: &Vec<Decimal>) -> (r: Stats)
    requires
        samples@.len() <= count_limit(),
        forall|i: int| 0 <= i < samples@.len() ==> sample_ok(#[trigger] samples@[i]),
    ensures
        r.wf(),
        r.samples_spec() == units6_seq(samples@),
        r.size_spec() == samples@.len(),
{
    let mut stats = Stats::new();
    let n = samples.len();
    let mut i: usize = 0;
    proof {
        assert(stats.samples_spec() =~= units6_seq(samples@.take(0)));
    }
    while i < n
        invariant
            n == samples@.len() <= count_limit(),
            forall|k: int| 0 <= k < samples@.len() ==> sample_ok(#[trigger] samples@[k]),
            i <= n,
            stats.wf(),
            stats.size_spec() == i,
            stats.samples_spec() == units6_seq(samples@.take(i as int)),
        decreases n - i,
    {
        stats.add(samples[i]);
        proof {
            assert(units6_seq(samples@.take(i + 1)) =~= units6_seq(samples@.take(
                i as int)).push(samples@[i as int].units_at(6)));
        }
        i = i + 1;
    }
    proof {
        assert(samples@.take(n as int) =~= samples@);
    }
    stats
}

} // verus!
