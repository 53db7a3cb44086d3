//! Statistical reduction of a probe's timing samples.
//!
//! Samples are elapsed times in microseconds.  The latency sampler reduces
//! its successful samples to their arithmetic mean; the jitter sampler
//! reduces consecutive samples to the mean absolute difference between
//! neighbours.  Both means round toward zero at microsecond granularity.

use vstd::prelude::*;

verus! {

use vstd::arithmetic::div_mod::lemma_div_is_ordered;
use vstd::arithmetic::div_mod::lemma_div_multiples_vanish;
use vstd::arithmetic::mul::lemma_mul_inequality;

/// Sum of a sequence of samples.
pub open spec fn sum_of(s: Seq<u64>) -> int
    decreases s.len(),
{
    if s.len() == 0 {
        0
    } else {
        sum_of(s.drop_last()) + s.last()
    }
}

/// Arithmetic mean of the samples, rounded toward zero; zero when there are
/// no samples at all.
pub open spec fn spec_mean_us(s: Seq<u64>) -> int {
    if s.len() == 0 {
        0
    } else {
        sum_of(s) / (s.len() as int)
    }
}

/// Absolute difference of two samples.
pub open spec fn abs_diff(a: u64, b: u64) -> int {
    if a >= b {
        a - b
    } else {
        b - a
    }
}

/// Sum of the absolute differences between each sample and its predecessor.
pub open spec fn diff_sum_of(s: Seq<u64>) -> int
    decreases s.len(),
{
    if s.len() < 2 {
        0
    } else {
        diff_sum_of(s.drop_last()) + abs_diff(s.last(), s[s.len() - 2])
    }
}

/// Mean absolute difference between consecutive samples, rounded toward
/// zero.  With fewer than two samples there are no consecutive pairs, so the
/// figure is defined as zero rather than dividing by zero.
pub open spec fn spec_jitter_us(s: Seq<u64>) -> int {
    if s.len() < 2 {
        0
    } else {
        diff_sum_of(s) / (s.len() - 1) as int
    }
}

/// A nonnegative total bounded by `n * u64::MAX` has a mean over `n` parts
/// that fits in a `u64`.
proof fn lemma_mean_fits(total: int, n: int)
    requires
        0 < n,
        0 <= total <= n * (u64::MAX as int),
    ensures
        0 <= total / n <= u64::MAX as int,
{
    lemma_div_is_ordered(total, n * (u64::MAX as int), n);
    lemma_div_multiples_vanish(u64::MAX as int, n);
}

/// Arithmetic mean, in microseconds, of the latency samples that succeeded.
/// An empty sample set — every request failed — yields exactly zero.
pub fn mean_latency_us(samples: &Vec<u64>) -> (r: u64)
    ensures
        r == spec_mean_us(samples@),
{
    if samples.len() == 0 {
        return 0;
    }
    let n: usize = samples.len();
    let mut acc: u128 = 0;
    let mut i: usize = 0;
    while i < n
        invariant
            n == samples@.len(),
            1 <= n,
            i <= n,
            acc == sum_of(samples@.take(i as int)),
            acc <= i * (u64::MAX as int),
        decreases n - i,
    {
        proof {
            assert(samples@.take(i + 1).drop_last() =~= samples@.take(i as int));
            assert(samples@.take(i + 1).last() == samples@[i as int]);
            assert(i * (u64::MAX as int) + (u64::MAX as int) == (i + 1) * (u64::MAX as int))
                by (nonlinear_arith);
            lemma_mul_inequality((i + 1) as int, usize::MAX as int, u64::MAX as int);
        }
        acc = acc + (samples[i] as u128);
        i += 1;
    }
    proof {
        assert(samples@.take(n as int) =~= samples@);
        lemma_mean_fits(acc as int, n as int);
    }
    (acc / (n as u128)) as u64
}

/// Mean absolute difference, in microseconds, between consecutive jitter
/// samples.  With fewer than two samples the divisor would be zero, so the
/// figure is defined to be zero instead.
pub fn jitter_us(samples: &Vec<u64>) -> (r: u64)
    ensures
        r == spec_jitter_us(samples@),
{
    let n: usize = samples.len();
    if n < 2 {
        return 0;
    }
    let mut acc: u128 = 0;
    let mut i: usize = 1;
    while i < n
        invariant
            n == samples@.len(),
            2 <= n,
            1 <= i <= n,
            acc == diff_sum_of(samples@.take(i as int)),
            acc <= (i - 1) * (u64::MAX as int),
        decreases n - i,
    {
        proof {
            assert(samples@.take(i + 1).drop_last() =~= samples@.take(i as int));
            assert(samples@.take(i + 1).last() == samples@[i as int]);
            assert(samples@.take(i + 1)[i - 1] == samples@[i - 1]);
            assert((i - 1) * (u64::MAX as int) + (u64::MAX as int) == i * (u64::MAX as int))
                by (nonlinear_arith);
            lemma_mul_inequality(i as int, usize::MAX as int, u64::MAX as int);
        }
        let a: u64 = samples[i];
        let b: u64 = samples[i - 1];
        let d: u64 = if a >= b {
            a - b
        } else {
            b - a
        };
        acc = acc + (d as u128);
        i += 1;
    }
    proof {
        assert(samples@.take(n as int) =~= samples@);
        lemma_mean_fits(acc as int, (n - 1) as int);
    }
    (acc / ((n - 1) as u128)) as u64
}

} // verus!
