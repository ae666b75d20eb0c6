//! The statistics engine: pure functions over a sorted, non-empty sequence of
//! samples, each a duration in nanoseconds.
use vstd::prelude::*;
use vstd::arithmetic::div_mod::lemma_fundamental_div_mod;
use num::integer::Roots;

verus! {

/// The fewest samples on which every statistic is defined: the upper quartile
/// is read at index `n - n / 4`, which lies inside the store only from four
/// samples on.
pub const MIN_SAMPLES: usize = 4;

/// Every sample is at most every later one.
pub open spec fn sorted(s: Seq<u64>) -> bool {
    forall|i: int, j: int| 0 <= i <= j < s.len() ==> s[i] <= s[j]
}

/// The sum of all samples.
pub open spec fn total(s: Seq<u64>) -> int
    decreases s.len(),
{
    if s.len() == 0 {
        0
    } else {
        total(s.drop_last()) + s.last()
    }
}

/// The arithmetic mean, truncated.
pub open spec fn mean_of(s: Seq<u64>) -> int {
    total(s) / (s.len() as int)
}

/// The sum of the signed differences `s[i] - m`.
pub open spec fn signed_gap_sum(s: Seq<u64>, m: int) -> int
    decreases s.len(),
{
    if s.len() == 0 {
        0
    } else {
        signed_gap_sum(s.drop_last(), m) + (s.last() - m)
    }
}

/// The square whose root is reported as the deviation: the signed differences
/// from the mean are summed first and the sum is squared, then divided by the
/// number of samples. The differences mostly cancel, so the value stays small
/// whatever the spread; this is the harness's long-standing formula, kept as it
/// is so that reports stay comparable, and not a standard deviation.
pub open spec fn deviation_square(s: Seq<u64>) -> int {
    let g = signed_gap_sum(s, mean_of(s));
    (g * g) / (s.len() as int)
}

/// `r` is the floor of the square root of `x`.
pub open spec fn is_floor_sqrt(r: int, x: int) -> bool {
    0 <= r && r * r <= x < (r + 1) * (r + 1)
}

/// How far a fence lies from its quartile: one and a half times the
/// interquartile range, with the half truncated.
pub open spec fn fence_offset(iqr: int) -> int {
    iqr + iqr / 2
}

/// `a - b`, or zero where that is negative.
pub open spec fn sub_or_zero(a: int, b: int) -> int {
    if b > a {
        0
    } else {
        a - b
    }
}

/// The summary statistics of one sample store, all in nanoseconds.
#[derive(Clone, Copy, Debug, PartialEq, Eq)]
pub struct Summary {
    pub mean: u64,
    pub deviation: u64,
    pub q1: u64,
    pub median: u64,
    pub q3: u64,
    pub quartile_min: u64,
    pub quartile_max: u64,
    pub min: u64,
    pub max: u64,
    pub range: u64,
}

/// The floor of the square root of `x`, for `x >= 0`.
pub open spec fn floor_sqrt_of(x: int) -> int {
    choose|r: int| is_floor_sqrt(r, x)
}

/// The summary of the sorted samples `s`, of which there are at least
/// `MIN_SAMPLES`.
///
/// The quartiles are read at the indices `n / 4`, `n / 2` and `n - n / 4`.
/// Both fences subtract the offset from their quartile, as the harness always
/// has (a Tukey fence would add it above the upper quartile); where the
/// difference would be negative the fence is zero.
pub open spec fn summary_of(s: Seq<u64>) -> Summary {
    let n = s.len() as int;
    let iqr = s[n - n / 4] - s[n / 4];
    Summary {
        mean: mean_of(s) as u64,
        deviation: floor_sqrt_of(deviation_square(s)) as u64,
        q1: s[n / 4],
        median: s[n / 2],
        q3: s[n - n / 4],
        quartile_min: sub_or_zero(s[n / 4] as int, fence_offset(iqr)) as u64,
        quartile_max: sub_or_zero(s[n - n / 4] as int, fence_offset(iqr)) as u64,
        min: s[0],
        max: s[n - 1],
        range: (s[n - 1] - s[0]) as u64,
    }
}

/// A non-negative integer has exactly one floor square root.
pub proof fn lemma_floor_sqrt_unique(a: int, b: int, x: int)
    requires
        is_floor_sqrt(a, x),
        is_floor_sqrt(b, x),
    ensures
        a == b,
{
    if a < b {
        assert((a + 1) * (a + 1) <= b * b) by (nonlinear_arith)
            requires 0 <= a, a + 1 <= b;
    } else if b < a {
        assert((b + 1) * (b + 1) <= a * a) by (nonlinear_arith)
            requires 0 <= b, b + 1 <= a;
    }
}

pub proof fn lemma_total_bound(s: Seq<u64>)
    ensures
        0 <= total(s) <= s.len() * (u64::MAX as int),
    decreases s.len(),
{
    if s.len() > 0 {
        lemma_total_bound(s.drop_last());
    }
}

/// The signed differences from any `m` sum to the total less `n * m`.
pub proof fn lemma_signed_gap_sum(s: Seq<u64>, m: int)
    ensures
        signed_gap_sum(s, m) == total(s) - s.len() * m,
    decreases s.len(),
{
    if s.len() > 0 {
        lemma_signed_gap_sum(s.drop_last(), m);
        assert(total(s) - s.len() * m == total(s.drop_last()) - (s.len() - 1) * m + s.last() - m)
            by (nonlinear_arith)
            requires
                total(s) == total(s.drop_last()) + s.last(),
        ;
    }
}

/// Relies on num_integer's `Roots::sqrt` for `u128`, which returns the
/// truncated square root: `r * r <= x < (r + 1) * (r + 1)`.
#[verifier::external_body]
fn floor_sqrt(x: u128) -> (r: u128)
    ensures
        is_floor_sqrt(r as int, x as int),
{
    x.sqrt()
}

/// The sum of all samples, accumulated without overflow.
fn sum_samples(s: &Vec<u64>) -> (r: u128)
    ensures
        r == total(s@),
{
    let mut acc: u128 = 0;
    let mut i: usize = 0;
    while i < s.len()
        invariant
            i <= s.len(),
            acc == total(s@.take(i as int)),
            acc <= i * (u64::MAX as int),
        decreases s.len() - i,
    {
        assert(s@.take(i as int + 1).drop_last() == s@.take(i as int));
        proof {
            assert((i + 1) * (u64::MAX as int) == i * (u64::MAX as int) + u64::MAX) by (nonlinear_arith);
            assert((i + 1) * (u64::MAX as int) <= (usize::MAX as int) * (u64::MAX as int)) by (nonlinear_arith)
                requires i + 1 <= usize::MAX;
            assert((usize::MAX as int) * (u64::MAX as int) <= u128::MAX) by (nonlinear_arith)
                requires usize::MAX <= u64::MAX;
        }
        acc = acc + s[i] as u128;
        i = i + 1;
    }
    assert(s@.take(s.len() as int) == s@);
    acc
}

/// The mean of the samples, truncated.
pub fn mean(s: &Vec<u64>) -> (r: u64)
    requires
        s.len() > 0,
    ensures
        r == mean_of(s@),
{
    let acc = sum_samples(s);
    let n = s.len() as u128;
    proof {
        lemma_total_bound(s@);
        assert(total(s@) / (n as int) <= u64::MAX) by (nonlinear_arith)
            requires total(s@) <= n * (u64::MAX as int), n > 0, total(s@) >= 0;
    }
    (acc / n) as u64
}

/// The summary statistics of sorted samples.
pub fn summarize(s: &Vec<u64>) -> (r: Summary)
    requires
        sorted(s@),
        s.len() >= MIN_SAMPLES,
    ensures
        r == summary_of(s@),
{
    let n: usize = s.len();
    let acc = sum_samples(s);
    let mean = mean(s);
    // The signed differences from the mean sum to the remainder of the total.
    let gap: u128 = acc % (n as u128);
    proof {
        lemma_signed_gap_sum(s@, mean as int);
        lemma_fundamental_div_mod(acc as int, n as int);
        assert(gap < n);
        assert(gap * gap <= (n as int) * (n as int)) by (nonlinear_arith)
            requires gap < n;
        assert((n as int) * (n as int) <= (u64::MAX as int) * (u64::MAX as int)) by (nonlinear_arith)
            requires n <= u64::MAX;
    }
    let square: u128 = gap * gap / (n as u128);
    let root = floor_sqrt(square);
    proof {
        assert(square < n) by (nonlinear_arith)
            requires square == gap * gap / (n as int), gap < n, n > 0;
        assert(root < 0x1_0000_0000) by (nonlinear_arith)
            requires root * root <= square, square < n, n <= u64::MAX;
    }
    proof {
        lemma_floor_sqrt_unique(root as int, floor_sqrt_of(square as int), square as int);
        assert(deviation_square(s@) == square);
    }
    let q1 = s[n / 4];
    let median = s[n / 2];
    let q3 = s[n - n / 4];
    let iqr = q3 - q1;
    let offset: u128 = iqr as u128 + (iqr / 2) as u128;
    let quartile_min: u64 = if offset > q1 as u128 { 0 } else { q1 - offset as u64 };
    let quartile_max: u64 = if offset > q3 as u128 { 0 } else { q3 - offset as u64 };
    let min = s[0];
    let max = s[n - 1];
    Summary {
        mean,
        deviation: root as u64,
        q1,
        median,
        q3,
        quartile_min,
        quartile_max,
        min,
        max,
        range: max - min,
    }
}

/// Samples that all equal `d` total `n * d`.
pub proof fn lemma_total_constant(s: Seq<u64>, d: u64)
    requires
        forall|i: int| 0 <= i < s.len() ==> s[i] == d,
    ensures
        total(s) == s.len() * d,
    decreases s.len(),
{
    if s.len() > 0 {
        lemma_total_constant(s.drop_last(), d);
        assert(s.len() * d == (s.len() - 1) * d + d) by (nonlinear_arith);
    }
}

/// Where every operation takes the same `d` nanoseconds, mean, median,
/// quartiles, fences, minimum and maximum are all `d`, and deviation and range
/// are zero.
pub proof fn lemma_constant_samples(s: Seq<u64>, d: u64)
    requires
        s.len() >= MIN_SAMPLES,
        forall|i: int| 0 <= i < s.len() ==> s[i] == d,
    ensures
        summary_of(s) == (Summary {
            mean: d,
            deviation: 0,
            q1: d,
            median: d,
            q3: d,
            quartile_min: d,
            quartile_max: d,
            min: d,
            max: d,
            range: 0,
        }),
{
    let n = s.len() as int;
    lemma_total_constant(s, d);
    assert(mean_of(s) == d) by (nonlinear_arith)
        requires total(s) == n * d, n > 0, mean_of(s) == total(s) / n;
    lemma_signed_gap_sum(s, d as int);
    assert(signed_gap_sum(s, d as int) == 0) by (nonlinear_arith)
        requires signed_gap_sum(s, d as int) == total(s) - n * d, total(s) == n * d;
    assert(deviation_square(s) == 0);
    assert(is_floor_sqrt(0, 0));
    lemma_floor_sqrt_unique(0, floor_sqrt_of(0), 0);
    assert(s[n / 4] == d && s[n / 2] == d && s[n - n / 4] == d && s[0] == d && s[n - 1] == d);
}

} // verus!
