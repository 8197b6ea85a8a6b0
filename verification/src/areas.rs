//! Limiting-magnitude estimation from star counts in standard sky areas.
//!
//! An observer counts the stars visible in one or more numbered standard
//! areas; an empirical table turns each count into a candidate limiting
//! magnitude, in hundredths. Several simultaneous candidates are combined by
//! the International Meteor Organization gap rule: after sorting, a
//! candidate isolated from both neighbours by more than 0.3 magnitudes is an
//! outlier and is dropped, unless every candidate is isolated, in which case
//! the plain mean of all of them is taken.

use vstd::prelude::*;
use vstd::relations::{sorted_by, total_ordering};
use vstd::seq_lib::lemma_sorted_unique;
use vstd::seq_lib::group_to_multiset_ensures;
use crate::rounding::{round_div_spec, round_div_i128, lemma_round_div_bounds};

verus! {

/// A numbered standard sky area, 1 to 30 in the usual table.
#[derive(Copy, Clone, Debug, PartialEq, Eq, Structural)]
pub struct Area(pub usize);

/// The per-area lookup table: row `a - 1` belongs to area `a`, and its entry
/// `s - 1` is the limiting magnitude, in hundredths, for `s` counted stars.
pub struct AreaTable {
    pub rows: Vec<Vec<i32>>,
}

impl View for AreaTable {
    type V = Seq<Seq<i32>>;

    open spec fn view(&self) -> Seq<Seq<i32>> {
        self.rows@.map_values(|r: Vec<i32>| r@)
    }
}

/// The candidate magnitude for `stars` counted stars in area `area`;
/// `None` when either index is outside the table.
pub open spec fn lookup_spec(table: Seq<Seq<i32>>, stars: int, area: int) -> Option<i32> {
    if 1 <= area <= table.len() && 1 <= stars <= table[area - 1].len() {
        Some(table[area - 1][stars - 1])
    } else {
        None
    }
}

/// The ascending order on magnitudes.
pub open spec fn lm_order() -> spec_fn(i32, i32) -> bool {
    |a: i32, b: i32| a <= b
}

/// Under the gap rule a sorted candidate at position `i` is kept iff at
/// least one neighbour is within 0.3 magnitudes (30 hundredths) of it.
pub open spec fn kept(s: Seq<i32>, i: int) -> bool {
    (i > 0 && s[i] - s[i - 1] <= 30) || (i + 1 < s.len() && s[i + 1] - s[i] <= 30)
}

/// How many of the first `n` sorted candidates the gap rule keeps.
pub open spec fn kept_count(s: Seq<i32>, n: int) -> int
    decreases n,
{
    if n <= 0 {
        0
    } else {
        kept_count(s, n - 1) + if kept(s, n - 1) { 1int } else { 0int }
    }
}

/// Sum of the kept candidates among the first `n` sorted ones.
pub open spec fn kept_sum(s: Seq<i32>, n: int) -> int
    decreases n,
{
    if n <= 0 {
        0
    } else {
        kept_sum(s, n - 1) + if kept(s, n - 1) { s[n - 1] as int } else { 0int }
    }
}

/// Sum of the first `n` candidates.
pub open spec fn sum_all(s: Seq<i32>, n: int) -> int
    decreases n,
{
    if n <= 0 {
        0
    } else {
        sum_all(s, n - 1) + s[n - 1]
    }
}

/// The combined magnitude of a sorted, non-empty candidate list: a single
/// candidate stands as it is; otherwise the mean of the kept candidates,
/// or of all of them when the gap rule keeps none, rounded to the nearest
/// hundredth with halves away from zero.
pub open spec fn gap_rule_mean(s: Seq<i32>) -> int
    recommends
        s.len() >= 1,
        sorted_by(s, lm_order()),
{
    let n = s.len() as int;
    if n == 1 {
        s[0] as int
    } else if kept_count(s, n) == 0 {
        round_div_spec(sum_all(s, n), n)
    } else {
        round_div_spec(kept_sum(s, n), kept_count(s, n))
    }
}

/// The candidate magnitude of each submitted `(stars, area)` pair.
pub open spec fn candidates_spec(table: Seq<Seq<i32>>, counts: Seq<(usize, Area)>) -> Seq<
    Option<i32>,
> {
    Seq::new(counts.len(), |i: int| lookup_spec(table, counts[i].0 as int, counts[i].1.0 as int))
}

/// The combined limiting magnitude of simultaneous area counts: `None` when
/// no pair was submitted or any pair fails to resolve, otherwise the gap
/// rule applied to the sorted resolved candidates.
pub open spec fn lm_avg_spec(table: Seq<Seq<i32>>, counts: Seq<(usize, Area)>) -> Option<int> {
    let cands = candidates_spec(table, counts);
    if counts.len() == 0 || (exists|i: int| 0 <= i < counts.len() && cands[i] is None) {
        None
    } else {
        Some(gap_rule_mean(Seq::new(counts.len(), |i: int| cands[i].unwrap()).sort_by(lm_order())))
    }
}

/// The magnitude order is a total ordering.
proof fn lemma_lm_order_total()
    ensures
        total_ordering(lm_order()),
{
    assert(vstd::relations::reflexive(lm_order()));
    assert(vstd::relations::antisymmetric(lm_order()));
    assert(vstd::relations::transitive(lm_order()));
    assert(vstd::relations::strongly_connected(lm_order()));
}

/// A sequence that is sorted and has the same elements as `orig` is the
/// sorted version of `orig`.
proof fn lemma_is_sorted_version(orig: Seq<i32>, sorted: Seq<i32>)
    requires
        sorted_by(sorted, lm_order()),
        orig.to_multiset() == sorted.to_multiset(),
    ensures
        sorted == orig.sort_by(lm_order()),
{
    lemma_lm_order_total();
    orig.lemma_sort_by_ensures(lm_order());
    lemma_sorted_unique(sorted, orig.sort_by(lm_order()), lm_order());
    assert(sorted =~= orig.sort_by(lm_order()));
}

/// Bounds on the gap-rule sums: each is a sum of `i32` values, one per
/// counted candidate.
proof fn lemma_gap_sums_bounds(s: Seq<i32>, n: int)
    requires
        0 <= n <= s.len(),
    ensures
        0 <= kept_count(s, n) <= n,
        (-0x8000_0000) * kept_count(s, n) <= kept_sum(s, n) <= 0x7fff_ffff * kept_count(s, n),
        (-0x8000_0000) * n <= sum_all(s, n) <= 0x7fff_ffff * n,
    decreases n,
{
    if n > 0 {
        lemma_gap_sums_bounds(s, n - 1);
        let c = kept_count(s, n - 1);
        assert((-0x8000_0000) * (c + 1) == (-0x8000_0000) * c + (-0x8000_0000))
            by (nonlinear_arith);
        assert(0x7fff_ffff * (c + 1) == 0x7fff_ffff * c + 0x7fff_ffff) by (nonlinear_arith);
        assert((-0x8000_0000) * n == (-0x8000_0000) * (n - 1) + (-0x8000_0000))
            by (nonlinear_arith);
        assert(0x7fff_ffff * n == 0x7fff_ffff * (n - 1) + 0x7fff_ffff) by (nonlinear_arith);
    }
}

/// Sorts a magnitude list ascending (selection sort).
fn sort_magnitudes(v: &mut Vec<i32>)
    ensures
        final(v)@ == old(v)@.sort_by(lm_order()),
        final(v)@.len() == old(v)@.len(),
{
    broadcast use group_to_multiset_ensures;
    broadcast use vstd::multiset::group_multiset_axioms;

    let ghost orig = v@;
    let n = v.len();
    for i in 0..n
        invariant
            v@.len() == n,
            v@.to_multiset() == orig.to_multiset(),
            forall|a: int, b: int| 0 <= a < b < i ==> v@[a] <= v@[b],
            forall|a: int, b: int| 0 <= a < i <= b < n ==> v@[a] <= v@[b],
    {
        let mut min_j = i;
        for j in (i + 1)..n
            invariant
                i <= min_j < n,
                n == v@.len(),
                i < n,
                forall|k: int| i <= k < j ==> v@[min_j as int] <= v@[k],
        {
            if v[j] < v[min_j] {
                min_j = j;
            }
        }
        let vi = v[i];
        let vm = v[min_j];
        let ghost before = v@;
        v[i] = vm;
        v[min_j] = vi;
        proof {
            broadcast use vstd::multiset::group_multiset_axioms;

            let s1 = before.update(i as int, vm);
            assert(v@ =~= s1.update(min_j as int, vi));
            assert(before[i as int] == vi);
            assert(before.contains(vi));
            vstd::seq_lib::to_multiset_contains(before, vi);
            vstd::seq_lib::to_multiset_update(before, i as int, vm);
            assert(s1[min_j as int] == vm);
            vstd::seq_lib::to_multiset_update(s1, min_j as int, vi);
            assert(v@.to_multiset() =~= before.to_multiset());
        }
    }
    proof {
        assert(sorted_by(v@, lm_order()));
        lemma_is_sorted_version(orig, v@);
    }
}

/// The candidate magnitude, in hundredths, for `stars` stars counted in
/// area `area` of the given table; `None` when either index falls outside
/// the table.
pub fn get_limiting_magnitude(stars: usize, area: Area, table: &AreaTable) -> (r: Option<i32>)
    ensures
        r == lookup_spec(table@, stars as int, area.0 as int),
{
    let Area(area_number) = area;
    if 1 <= area_number && area_number <= table.rows.len() {
        let row = &table.rows[area_number - 1];
        if 1 <= stars && stars <= row.len() {
            Some(row[stars - 1])
        } else {
            None
        }
    } else {
        None
    }
}

/// Combined limiting magnitude, in hundredths, of a set of simultaneous
/// `(stars counted, area)` samples, by the gap rule; `None` when the list is
/// empty or any sample fails to resolve in the table.
pub fn get_limiting_magnitude_avg(counts: &Vec<(usize, Area)>, table: &AreaTable) -> (r: Option<
    i32,
>)
    ensures
        match r {
            Some(v) => lm_avg_spec(table@, counts@) == Some(v as int),
            None => lm_avg_spec(table@, counts@) is None,
        },
{
    let ghost cands = candidates_spec(table@, counts@);
    let mut lms: Vec<i32> = Vec::new();
    let n = counts.len();
    for i in 0..n
        invariant
            n == counts@.len(),
            cands == candidates_spec(table@, counts@),
            lms@.len() == i,
            forall|j: int| 0 <= j < i ==> (#[trigger] cands[j]) is Some,
            forall|j: int| 0 <= j < i ==> lms@[j] == cands[j].unwrap(),
    {
        match get_limiting_magnitude(counts[i].0, counts[i].1, table) {
            Some(v) => lms.push(v),
            None => {
                proof {
                    assert(cands[i as int] is None);
                }
                return None;
            },
        }
    }
    if lms.len() == 0 {
        return None;
    }
    let ghost resolved = Seq::new(counts@.len(), |i: int| cands[i].unwrap());
    proof {
        assert(lms@ =~= resolved);
    }
    if lms.len() == 1 {
        proof {
            broadcast use group_to_multiset_ensures;

            assert(sorted_by(lms@, lm_order()));
            lemma_is_sorted_version(resolved, lms@);
        }
        return Some(lms[0]);
    }
    sort_magnitudes(&mut lms);
    let ghost s = resolved.sort_by(lm_order());
    let n = lms.len();
    let mut kept_total: i128 = 0;
    let mut kept_n: usize = 0;
    let mut all_total: i128 = 0;
    for i in 0..n
        invariant
            n == lms@.len(),
            lms@ == s,
            kept_n == kept_count(s, i as int),
            kept_total == kept_sum(s, i as int),
            all_total == sum_all(s, i as int),
            kept_n <= i,
    {
        proof {
            lemma_gap_sums_bounds(s, i as int);
            lemma_gap_sums_bounds(s, i + 1);
            lemma_linear_scale_bound(kept_count(s, i + 1), n as int);
            lemma_linear_scale_bound(i + 1, n as int);
        }
        let left_gap = if i == 0 {
            true
        } else {
            (lms[i] as i64) - (lms[i - 1] as i64) > 30
        };
        let right_gap = if i + 1 < n {
            (lms[i + 1] as i64) - (lms[i] as i64) > 30
        } else {
            true
        };
        if !left_gap || !right_gap {
            kept_total = kept_total + lms[i] as i128;
            kept_n = kept_n + 1;
        }
        all_total = all_total + lms[i] as i128;
    }
    if kept_n == 0 {
        proof {
            lemma_gap_sums_bounds(s, n as int);
            lemma_round_div_bounds(sum_all(s, n as int), n as int, -0x8000_0000, 0x7fff_ffff);
            lemma_linear_scale_bound(n as int, n as int);
        }
        Some(round_div_i128(all_total, n as i128) as i32)
    } else {
        proof {
            lemma_gap_sums_bounds(s, n as int);
            lemma_round_div_bounds(
                kept_sum(s, n as int),
                kept_count(s, n as int),
                -0x8000_0000,
                0x7fff_ffff,
            );
            lemma_linear_scale_bound(kept_count(s, n as int), n as int);
        }
        Some(round_div_i128(kept_total, kept_n as i128) as i32)
    }
}

/// A sum of at most `n` values of `i32` size stays far inside `i128`.
proof fn lemma_linear_scale_bound(c: int, n: int)
    requires
        0 <= c <= n,
        n <= 0x1_0000_0000_0000_0000,
    ensures
        (-0x8000_0000) * c >= (-0x8000_0000) * 0x1_0000_0000_0000_0000,
        0x7fff_ffff * c <= 0x7fff_ffff * 0x1_0000_0000_0000_0000,
{
    assert((-0x8000_0000) * c >= (-0x8000_0000) * 0x1_0000_0000_0000_0000) by (nonlinear_arith)
        requires
            0 <= c <= 0x1_0000_0000_0000_0000,
    ;
    assert(0x7fff_ffff * c <= 0x7fff_ffff * 0x1_0000_0000_0000_0000) by (nonlinear_arith)
        requires
            0 <= c <= 0x1_0000_0000_0000_0000,
    ;
}

impl AreaTable {
    /// The standard International Meteor Organization table: for each of
    /// the 30 numbered areas, the limiting magnitude in hundredths for each
    /// star count, empirical data taken as given.
    pub fn standard() -> (t: AreaTable)
        ensures
            t@.len() == 30,
    {
        let mut rows: Vec<Vec<i32>> = Vec::new();
        rows.push(vec![
            308, 318, 357, 374, 423, 478, 483, 500, 508, 525, 596, 606, 628, 642, 650, 660, 663,
            665, 666, 668, 670, 679, 686, 686, 686, 686, 687, 689, 692, 692, 693, 694, 702, 703,
            704, 709, 710, 710, 715, 724, 730, 731, 732, 733, 735, 735, 736, 739, 743, 750
        ]);
        rows.push(vec![
            211, 288, 302, 378, 495, 515, 555, 560, 579, 580, 598, 601, 607, 640, 641, 645, 650,
            651, 654, 660, 661, 666, 672, 673, 675, 678, 685, 689, 690, 702, 703, 703, 705, 715,
            715, 716, 718, 722, 723, 724, 724, 725, 726, 727, 728, 730, 731, 731, 733, 733, 735,
            735, 736, 742, 745, 748, 749, 750, 750
        ]);
        rows.push(vec![
            235, 318, 365, 378, 448, 456, 483, 513, 516, 549, 566, 572, 579, 597, 619, 630, 635,
            641, 649, 649, 654, 659, 672, 677, 683, 685, 699, 701, 706, 712, 712, 719, 720, 723,
            724, 730, 733, 740, 741, 744, 745, 747, 748, 750
        ]);
        rows.push(vec![
            122, 202, 301, 379, 501, 507, 534, 575, 576, 578, 620, 637, 647, 554, 667, 676, 680,
            699, 700, 702, 710, 712, 717, 722, 743, 745, 746, 746, 747
        ]);
        rows.push(vec![
            271, 299, 337, 445, 516, 530, 553, 598, 602, 631, 636, 671, 672, 677, 680, 690, 691,
            696, 700, 705, 706, 707, 709, 710, 711, 727, 728, 738, 739, 740, 741, 744, 745, 747
        ]);
        rows.push(vec![
            206, 249, 284, 466, 508, 549, 556, 580, 613, 614, 617, 625, 625, 626, 629, 644, 647,
            650, 657, 659, 660, 660, 667, 668, 668, 669, 672, 673, 674, 682, 687, 689, 689, 707,
            707, 710, 711, 712, 712, 714, 715, 719, 724, 727, 733, 737, 743, 744, 745, 745, 745,
            749, 749, 750
        ]);
        rows.push(vec![
            247, 323, 407, 423, 479, 512, 517, 526, 529, 536, 542, 573, 595, 596, 600, 614, 619,
            623, 644, 647, 648, 663, 669, 670, 671, 672, 684, 688, 692, 693, 694, 697, 701, 704,
            706, 708, 716, 718, 723, 724, 725, 725, 727, 729, 730, 732, 735, 739, 743, 744, 746,
            749
        ]);
        rows.push(vec![
            99, 168, 300, 462, 488, 495, 509, 529, 543, 551, 573, 584, 610, 619, 627, 629, 636,
            650, 655, 671, 676, 677, 687, 688, 695, 715, 717, 719, 721, 730, 734
        ]);
        rows.push(vec![
            141, 213, 223, 256, 333, 441, 478, 542, 544, 548, 550, 558, 573, 592, 614, 617, 627,
            627, 631, 640, 643, 652, 661, 664, 678, 681, 684, 685, 695, 700, 702, 706, 707, 710,
            712, 712, 712, 713, 713, 722, 726, 730, 730, 731, 733, 734, 736, 743, 743, 744, 745,
            748, 749
        ]);
        rows.push(vec![
            106, 274, 338, 439, 577, 580, 586, 592, 597, 599, 612, 641, 644, 663, 664, 665, 669,
            683, 690, 704, 706, 708, 716, 719, 720, 724, 725, 725, 732, 733, 734, 738, 742
        ]);
        rows.push(vec![
            16, 222, 236, 304, 357, 447, 451, 479, 481, 493, 528, 551, 567, 579, 581, 588, 590,
            600, 601, 604, 606, 613, 613, 622, 627, 632, 638, 638, 640, 640, 656, 668, 670, 671,
            676, 677, 679, 683, 684, 687, 689, 694, 695, 696, 696, 701, 703, 704, 712, 714, 715,
            717, 721, 722, 722, 725, 725, 725, 725, 725, 725, 725, 730, 730, 730, 738, 743, 743,
            743, 745, 745, 745, 749
        ]);
        rows.push(vec![
            261, 263, 273, 355, 510, 523, 539, 539, 551, 553, 557, 587, 625, 634, 651, 652, 654,
            671, 685, 687, 688, 695, 696, 697, 704, 713, 716, 716, 719, 721, 723, 725, 726, 727,
            727, 728, 732, 734, 735, 736, 741, 742, 743, 744, 747, 748, 748, 750, 750
        ]);
        rows.push(vec![
            352, 384, 432, 434, 441, 498, 542, 549, 556, 572, 599, 601, 603, 605, 610, 617, 647,
            659, 662, 667, 670, 689, 693, 700, 701, 702, 702, 703, 704, 706, 708, 719, 723, 727,
            729, 731, 733, 734, 737, 737, 738, 741, 743, 744, 745, 745, 746, 746, 749
        ]);
        rows.push(vec![
            223, 249, 390, 465, 473, 479, 494, 506, 539, 558, 564, 587, 591, 604, 625, 629, 631,
            634, 638, 647, 648, 660, 673, 674, 682, 687, 690, 696, 700, 702, 702, 708, 709, 710,
            712, 713, 723, 727, 729, 730, 732, 733, 734, 742, 742, 743, 744, 744, 744, 747, 747
        ]);
        rows.push(vec![
            280, 314, 390, 482, 507, 550, 567, 582, 592, 598, 606, 611, 616, 617, 629, 634, 636,
            636, 645, 646, 658, 666, 666, 674, 678, 682, 685, 687, 687, 700, 702, 704, 712, 717,
            723, 724, 735, 737, 738, 739, 747, 748, 749, 749, 750, 750
        ]);
        rows.push(vec![
            176, 186, 289, 467, 515, 564, 579, 585, 588, 611, 642, 648, 655, 670, 679, 680, 681,
            684, 696, 698, 698, 705, 706, 723, 726, 728, 733, 738, 747, 748
        ]);
        rows.push(vec![
            8, 190, 265, 303, 373, 397, 433, 452, 521, 546, 564, 591, 599, 609, 611, 623, 630,
            630, 641, 644, 647, 648, 651, 654, 656, 557, 658, 658, 659, 660, 663, 666, 669, 675,
            677, 680, 681, 682, 684, 686, 686, 689, 693, 695, 695, 698, 698, 701, 716, 719, 720,
            721, 724, 724, 724, 724, 724, 724, 724, 727, 731, 731, 731, 731, 731, 731, 737, 740,
            740, 740, 746, 746, 746, 746, 746, 750
        ]);
        rows.push(vec![
            217, 387, 410, 426, 483, 487, 496, 501, 504, 564, 567, 594, 598, 613, 613, 639, 642,
            652, 655, 658, 660, 664, 665, 668, 668, 677, 677, 684, 690, 695, 707, 714, 719, 721,
            723, 723, 725, 726, 726, 727, 727, 730, 733, 743, 744, 746, 747, 748, 750
        ]);
        rows.push(vec![
            206, 365, 389, 519, 550, 581, 620, 633, 640, 653, 670, 700, 717, 722, 725, 730, 733,
            741, 745, 749
        ]);
        rows.push(vec![
            403, 431, 462, 477, 514, 544, 547, 562, 563, 600, 604, 617, 617, 620, 621, 624, 625,
            635, 636, 638, 643, 647, 661, 662, 663, 664, 664, 666, 669, 671, 674, 681, 682, 685,
            686, 688, 689, 689, 692, 695, 697, 698, 699, 701, 703, 705, 708, 712, 712, 714, 717,
            727, 728, 730, 730, 732, 737, 737, 740, 740, 743, 743, 743, 745, 747
        ]);
        rows.push(vec![
            123, 327, 368, 396, 448, 472, 554, 566, 598, 628, 630, 635, 679, 682, 697, 705, 725,
            742, 745, 746, 748, 750
        ]);
        rows.push(vec![
            28, 284, 329, 387, 428, 443, 447, 478, 546, 549, 568, 568, 569, 572, 582, 596, 596,
            605, 615, 623, 627, 635, 640, 642, 646, 647, 654, 668, 671, 673, 675, 676, 696, 702,
            704, 712, 714, 714, 721, 721, 722, 728, 732, 732, 733, 734, 734, 737, 738, 738, 741,
            742, 743, 743, 745, 745, 747, 778
        ]);
        rows.push(vec![
            259, 266, 297, 301, 521, 581, 595, 640, 662, 684, 706, 725, 730, 741, 744, 744, 746
        ]);
        rows.push(vec![
            261, 275, 328, 392, 456, 519, 564, 572, 608, 614, 615, 617, 619, 641, 646, 650, 663,
            664, 667, 675, 676, 676, 680, 687, 694, 707, 714, 716, 719, 720, 722, 724, 725, 729,
            729, 732, 735, 737, 738, 741, 746, 749, 750
        ]);
        rows.push(vec![
            107, 229, 396, 526, 540, 550, 584, 592, 600, 609, 615, 632, 641, 647, 656, 656, 662,
            685, 690, 697, 698, 701, 707, 713, 714, 715, 726, 740, 746
        ]);
        rows.push(vec![
            -1, 191, 284, 288, 376, 385, 411, 485, 508, 510, 511, 517, 518, 529, 550, 572, 575,
            577, 589, 589, 595, 595, 602, 607, 612, 614, 616, 617, 620, 620, 621, 622, 625, 625,
            630, 631, 633, 639, 639, 642, 648, 648, 650, 650, 650, 650, 657, 657, 661, 670, 670,
            670, 675, 681, 681, 681, 681, 685, 685, 685, 685, 685, 685, 690, 690, 695, 695, 695,
            695, 700, 700, 700, 700, 700, 705, 710, 710, 710, 710, 710, 714, 714, 720, 720, 720,
            724, 724, 724, 724, 729, 729, 734, 734, 734, 734, 734, 740, 740, 740, 740, 740, 745,
            745, 745, 745, 750
        ]);
        rows.push(vec![
            64, 131, 158, 165, 431, 456, 459, 461, 469, 492, 550, 575, 582, 604, 620, 620, 623,
            642, 661, 661, 666, 669, 673, 674, 675, 692, 693, 696, 698, 707, 711, 713, 719, 719,
            721, 724, 726, 727, 729, 731, 737, 738, 740, 745, 750
        ]);
        rows.push(vec![
            167, 195, 225, 384, 396, 400, 433, 546, 554, 578, 579, 636, 636, 649, 654, 663, 672,
            685, 690, 693, 699, 704, 708, 714, 715, 716, 718, 719, 725, 729, 731, 737, 738, 738,
            738, 738, 744, 745, 746
        ]);
        rows.push(vec![
            282, 286, 326, 408, 469, 474, 551, 557, 567, 599, 609, 636, 643, 657, 659, 665, 666,
            669, 669, 671, 677, 681, 684, 685, 686, 688, 689, 689, 691, 694, 701, 709, 709, 710,
            713, 719, 722, 722, 723, 724, 726, 727, 729, 730, 730, 732, 732, 737, 737, 737, 738,
            739, 741, 746, 747, 750, 750
        ]);
        rows.push(vec![
            192, 286, 342, 365, 395, 423, 476, 486, 512, 515, 518, 561, 562, 576, 592, 609, 622,
            622, 628, 633, 635, 636, 640, 650, 659, 670, 670, 673, 677, 683, 684, 686, 687, 691,
            692, 692, 697, 700, 703, 709, 710, 710, 712, 715, 718, 720, 721, 723, 724, 724, 727,
            735, 736, 741, 744, 744, 747, 748, 750, 750
        ]);
        let t = AreaTable { rows };
        proof {
            assert(t@.len() == 30);
        }
        t
    }
}

} // verus!
