//! Rounding of integer quotients to the nearest integer.
//!
//! Magnitudes and factors are reported to two decimal places. On the scaled
//! integers this library works with, that is division rounded to the nearest
//! integer with halves away from zero.

use vstd::prelude::*;
use vstd::arithmetic::div_mod::{
    lemma_div_is_ordered, lemma_div_is_ordered_by_denominator, lemma_div_multiples_vanish_fancy,
    lemma_div_pos_is_pos,
};

verus! {

/// `num / den`, rounded to the nearest integer, halves away from zero.
pub open spec fn round_div_spec(num: int, den: int) -> int
    recommends
        den > 0,
{
    if num >= 0 {
        (2 * num + den) / (2 * den)
    } else {
        -((2 * (-num) + den) / (2 * den))
    }
}

/// A quotient bounded between `lo` and `hi` rounds to a value between `lo`
/// and `hi`.
pub proof fn lemma_round_div_bounds(num: int, den: int, lo: int, hi: int)
    requires
        den > 0,
        lo <= 0 <= hi,
        lo * den <= num <= hi * den,
    ensures
        lo <= round_div_spec(num, den) <= hi,
{
    if num >= 0 {
        lemma_div_multiples_vanish_fancy(hi, den, 2 * den);
        assert((2 * den) * hi + den == 2 * (hi * den) + den) by (nonlinear_arith);
        lemma_div_is_ordered(2 * num + den, 2 * (hi * den) + den, 2 * den);
        lemma_div_pos_is_pos(2 * num + den, 2 * den);
    } else {
        lemma_div_multiples_vanish_fancy(-lo, den, 2 * den);
        assert((2 * den) * (-lo) + den == 2 * ((-lo) * den) + den) by (nonlinear_arith);
        assert(lo * den == -((-lo) * den)) by (nonlinear_arith);
        lemma_div_is_ordered(2 * (-num) + den, 2 * ((-lo) * den) + den, 2 * den);
        lemma_div_pos_is_pos(2 * (-num) + den, 2 * den);
    }
}

/// `num / den` rounded to the nearest integer, halves away from zero.
pub(crate) fn round_div_i128(num: i128, den: i128) -> (r: i128)
    requires
        0 < den < 0x4000_0000_0000_0000_0000_0000_0000_0000,
        -0x4000_0000_0000_0000_0000_0000_0000_0000 < num
            < 0x4000_0000_0000_0000_0000_0000_0000_0000,
    ensures
        r == round_div_spec(num as int, den as int),
{
    let d: u128 = den as u128;
    if num >= 0 {
        let n: u128 = num as u128;
        let q: u128 = (2 * n + d) / (2 * d);
        proof {
            lemma_div_pos_is_pos(2 * n + d, 2 * d);
            assert(q <= (2 * n + d) / 2) by {
                lemma_div_is_ordered_by_denominator((2 * n + d) as int, 2, 2 * d as int);
            }
        }
        q as i128
    } else {
        let n: u128 = (-num) as u128;
        let q: u128 = (2 * n + d) / (2 * d);
        proof {
            lemma_div_pos_is_pos(2 * n + d, 2 * d);
            assert(q <= (2 * n + d) / 2) by {
                lemma_div_is_ordered_by_denominator((2 * n + d) as int, 2, 2 * d as int);
            }
        }
        -(q as i128)
    }
}

} // verus!
