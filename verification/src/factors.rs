//! Weighted factor computations over segmented intervals.
//!
//! A segment list pairs a sample value with the number of effective minutes
//! for which it held. The weighted limiting magnitude and the weighted cloud
//! factor of a period are duration-weighted means over such lists, rounded
//! to two decimal places on the scaled integers.

use vstd::prelude::*;
use crate::rounding::{round_div_spec, round_div_i128, lemma_round_div_bounds};

verus! {

/// Sum of the durations of the first `n` segments.
pub open spec fn duration_total_lm(segs: Seq<(i32, u32)>, n: int) -> int
    recommends
        0 <= n <= segs.len(),
    decreases n,
{
    if n <= 0 {
        0
    } else {
        duration_total_lm(segs, n - 1) + segs[n - 1].1
    }
}

/// Sum of value times duration over the first `n` segments.
pub open spec fn weighted_sum_lm(segs: Seq<(i32, u32)>, n: int) -> int
    recommends
        0 <= n <= segs.len(),
    decreases n,
{
    if n <= 0 {
        0
    } else {
        weighted_sum_lm(segs, n - 1) + segs[n - 1].0 * segs[n - 1].1
    }
}

/// Sum of the durations of the first `n` cloud segments.
pub open spec fn duration_total_cloud(segs: Seq<(u8, u32)>, n: int) -> int
    recommends
        0 <= n <= segs.len(),
    decreases n,
{
    if n <= 0 {
        0
    } else {
        duration_total_cloud(segs, n - 1) + segs[n - 1].1
    }
}

/// Sum of cloud percentage times duration over the first `n` segments.
pub open spec fn weighted_sum_cloud(segs: Seq<(u8, u32)>, n: int) -> int
    recommends
        0 <= n <= segs.len(),
    decreases n,
{
    if n <= 0 {
        0
    } else {
        weighted_sum_cloud(segs, n - 1) + segs[n - 1].0 * segs[n - 1].1
    }
}

/// Duration-weighted mean of the magnitudes, in hundredths of a magnitude,
/// rounded to the nearest hundredth with halves away from zero. A list whose
/// durations sum to zero carries no weight at all and yields 0.
pub open spec fn limiting_magnitude_spec(segs: Seq<(i32, u32)>) -> int {
    let total = duration_total_lm(segs, segs.len() as int);
    if total == 0 {
        0
    } else {
        round_div_spec(weighted_sum_lm(segs, segs.len() as int), total)
    }
}

/// Cloud correction factor in hundredths: with `k` the duration-weighted
/// mean of the cloud fractions, the factor is `1 / (1 - k)` rounded to two
/// decimals, which on the scaled integers is `10000 * total` divided by
/// `100 * total - weighted_sum`, rounded. A list whose durations sum to zero
/// carries no weight at all and yields 0.
pub open spec fn cloud_factor_spec(segs: Seq<(u8, u32)>) -> int {
    let total = duration_total_cloud(segs, segs.len() as int);
    if total == 0 {
        0
    } else {
        round_div_spec(10000 * total, 100 * total - weighted_sum_cloud(segs, segs.len() as int))
    }
}

/// The weighted magnitude sum is bounded by the extreme magnitudes times the
/// total duration, and the total duration is bounded by 1439 per segment.
proof fn lemma_weighted_sum_lm_bounds(segs: Seq<(i32, u32)>, n: int)
    requires
        0 <= n <= segs.len(),
        forall|i: int| 0 <= i < segs.len() ==> (#[trigger] segs[i]).1 <= 1439,
    ensures
        (-0x8000_0000) * duration_total_lm(segs, n) <= weighted_sum_lm(segs, n)
            <= 0x7fff_ffff * duration_total_lm(segs, n),
        0 <= duration_total_lm(segs, n) <= 1439 * n,
    decreases n,
{
    if n > 0 {
        lemma_weighted_sum_lm_bounds(segs, n - 1);
        let v = segs[n - 1].0 as int;
        let d = segs[n - 1].1 as int;
        let t = duration_total_lm(segs, n - 1);
        assert((-0x8000_0000) * d <= v * d <= 0x7fff_ffff * d) by (nonlinear_arith)
            requires
                -0x8000_0000 <= v <= 0x7fff_ffff,
                d >= 0,
        ;
        assert((-0x8000_0000) * (t + d) == (-0x8000_0000) * t + (-0x8000_0000) * d)
            by (nonlinear_arith);
        assert(0x7fff_ffff * (t + d) == 0x7fff_ffff * t + 0x7fff_ffff * d) by (nonlinear_arith);
        assert(1439 * n == 1439 * (n - 1) + 1439) by (nonlinear_arith);
    }
}

/// The weighted cloud sum is at most 99 times the total duration when every
/// percentage is at most 99, and the total duration is bounded by 1439 per
/// segment.
proof fn lemma_weighted_sum_cloud_bounds(segs: Seq<(u8, u32)>, n: int)
    requires
        0 <= n <= segs.len(),
        forall|i: int|
            0 <= i < segs.len() ==> (#[trigger] segs[i]).0 <= 99 && segs[i].1 <= 1439,
    ensures
        0 <= weighted_sum_cloud(segs, n) <= 99 * duration_total_cloud(segs, n),
        0 <= duration_total_cloud(segs, n) <= 1439 * n,
    decreases n,
{
    if n > 0 {
        lemma_weighted_sum_cloud_bounds(segs, n - 1);
        let v = segs[n - 1].0 as int;
        let d = segs[n - 1].1 as int;
        let t = duration_total_cloud(segs, n - 1);
        assert(0 <= v * d <= 99 * d) by (nonlinear_arith)
            requires
                0 <= v <= 99,
                d >= 0,
        ;
        assert(99 * (t + d) == 99 * t + 99 * d) by (nonlinear_arith);
        assert(1439 * n == 1439 * (n - 1) + 1439) by (nonlinear_arith);
    }
}

/// Duration-weighted limiting magnitude over the segments, in hundredths of
/// a magnitude, rounded to two decimals with halves away from zero.
pub fn limiting_magnitude(limiting_magnitude_measures: &Vec<(i32, u32)>) -> (r: i32)
    requires
        forall|i: int|
            0 <= i < limiting_magnitude_measures@.len()
                ==> (#[trigger] limiting_magnitude_measures@[i]).1 <= 1439,
    ensures
        r == limiting_magnitude_spec(limiting_magnitude_measures@),
{
    let ghost segs = limiting_magnitude_measures@;
    let mut total: u128 = 0;
    let mut weighted: i128 = 0;
    let n = limiting_magnitude_measures.len();
    for i in 0..n
        invariant
            n == segs.len(),
            segs == limiting_magnitude_measures@,
            forall|j: int| 0 <= j < segs.len() ==> (#[trigger] segs[j]).1 <= 1439,
            total == duration_total_lm(segs, i as int),
            weighted == weighted_sum_lm(segs, i as int),
    {
        let (v, d) = limiting_magnitude_measures[i];
        proof {
            lemma_weighted_sum_lm_bounds(segs, i as int);
            lemma_weighted_sum_lm_bounds(segs, i + 1);
            assert(1439 * (i + 1) <= 1439 * 0x1_0000_0000_0000_0000i128) by (nonlinear_arith)
                requires
                    0 <= i < 0x1_0000_0000_0000_0000i128,
            ;
            assert((-0x8000_0000) * duration_total_lm(segs, i + 1) >= (-0x8000_0000) * (1439
                * 0x1_0000_0000_0000_0000i128)) by (nonlinear_arith)
                requires
                    0 <= duration_total_lm(segs, i + 1) <= 1439 * 0x1_0000_0000_0000_0000i128,
            ;
            assert(0x7fff_ffff * duration_total_lm(segs, i + 1) <= 0x7fff_ffff * (1439
                * 0x1_0000_0000_0000_0000i128)) by (nonlinear_arith)
                requires
                    0 <= duration_total_lm(segs, i + 1) <= 1439 * 0x1_0000_0000_0000_0000i128,
            ;
        }
        total = total + d as u128;
        weighted = weighted + (v as i128) * (d as i128);
    }
    if total == 0 {
        0
    } else {
        proof {
            lemma_weighted_sum_lm_bounds(segs, segs.len() as int);
            lemma_round_div_bounds(
                weighted_sum_lm(segs, segs.len() as int),
                total as int,
                -0x8000_0000,
                0x7fff_ffff,
            );
            assert(total <= 1439 * 0x1_0000_0000_0000_0000i128) by (nonlinear_arith)
                requires
                    total as int <= 1439 * (segs.len() as int),
                    segs.len() <= 0x1_0000_0000_0000_0000i128,
            ;
        }
        let r128 = round_div_i128(weighted, total as i128);
        r128 as i32
    }
}

/// Weighted cloud correction factor over the segments, in hundredths,
/// rounded to two decimals with halves away from zero. Cloud percentages
/// run from 0 to 99.
pub fn cloud_factor(cloud_estimates: &Vec<(u8, u32)>) -> (r: u32)
    requires
        forall|i: int|
            0 <= i < cloud_estimates@.len() ==> (#[trigger] cloud_estimates@[i]).0 <= 99
                && cloud_estimates@[i].1 <= 1439,
    ensures
        r == cloud_factor_spec(cloud_estimates@),
{
    let ghost segs = cloud_estimates@;
    let mut total: u128 = 0;
    let mut weighted: u128 = 0;
    let n = cloud_estimates.len();
    for i in 0..n
        invariant
            n == segs.len(),
            segs == cloud_estimates@,
            forall|j: int|
                0 <= j < segs.len() ==> (#[trigger] segs[j]).0 <= 99 && segs[j].1 <= 1439,
            total == duration_total_cloud(segs, i as int),
            weighted == weighted_sum_cloud(segs, i as int),
    {
        let (v, d) = cloud_estimates[i];
        proof {
            lemma_weighted_sum_cloud_bounds(segs, i as int);
            lemma_weighted_sum_cloud_bounds(segs, i + 1);
            assert(1439 * (i + 1) <= 1439 * 0x1_0000_0000_0000_0000i128) by (nonlinear_arith)
                requires
                    0 <= i < 0x1_0000_0000_0000_0000i128,
            ;
            assert(99 * duration_total_cloud(segs, i + 1) <= 99 * (1439
                * 0x1_0000_0000_0000_0000i128)) by (nonlinear_arith)
                requires
                    0 <= duration_total_cloud(segs, i + 1) <= 1439 * 0x1_0000_0000_0000_0000i128,
            ;
        }
        total = total + d as u128;
        weighted = weighted + (v as u128) * (d as u128);
    }
    if total == 0 {
        0
    } else {
        proof {
            lemma_weighted_sum_cloud_bounds(segs, segs.len() as int);
            assert(10000 * (total as int) <= 10000 * ((100 * (total as int)) - weighted))
                by (nonlinear_arith)
                requires
                    weighted <= 99 * (total as int),
                    total >= 1,
            ;
            lemma_round_div_bounds(
                10000 * (total as int),
                100 * (total as int) - weighted_sum_cloud(segs, segs.len() as int),
                0,
                10000,
            );
            assert(total <= 1439 * 0x1_0000_0000_0000_0000i128) by (nonlinear_arith)
                requires
                    total as int <= 1439 * (segs.len() as int),
                    segs.len() <= 0x1_0000_0000_0000_0000i128,
            ;
        }
        let num: i128 = 10000 * (total as i128);
        let den: i128 = 100 * (total as i128) - (weighted as i128);
        let r128 = round_div_i128(num, den);
        r128 as u32
    }
}

} // verus!
