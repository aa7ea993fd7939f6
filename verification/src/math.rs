//! The swap output formula and its arithmetic laws.
//!
//! A swap of `amount_in` at a slippage tolerance of `slippage_bps` basis
//! points returns `floor(amount_in * (10000 - slippage_bps) / 10000)`.
//! The laws proved here: the output is never negative, never exceeds the
//! input, is strictly below the input whenever any slippage is allowed,
//! and is non-increasing in the slippage tolerance.

use vstd::prelude::*;
use vstd::arithmetic::div_mod::{
    lemma_div_is_ordered, lemma_div_multiples_vanish, lemma_div_multiples_vanish_fancy,
    lemma_div_of0, lemma_div_pos_is_pos,
};
use vstd::arithmetic::mul::{lemma_mul_inequality, lemma_mul_nonnegative};

use crate::types::{BPS_DENOMINATOR, MAX_SWAP_AMOUNT};

verus! {

/// The exact output of a swap: the input scaled down by the tolerated
/// slippage, rounded toward zero (floor, as both factors are nonnegative).
pub open spec fn swap_output(amount_in: int, slippage_bps: int) -> int {
    amount_in * (BPS_DENOMINATOR - slippage_bps) / (BPS_DENOMINATOR as int)
}

/// For every positive input and every slippage within the basis-point
/// scale, the output lies in `[0, amount_in]`; it equals the input only
/// with zero slippage and drops strictly below it as soon as any
/// slippage is tolerated.
pub proof fn lemma_swap_output_bounds(amount_in: int, slippage_bps: int)
    requires
        0 < amount_in,
        0 <= slippage_bps <= BPS_DENOMINATOR,
    ensures
        0 <= swap_output(amount_in, slippage_bps),
        swap_output(amount_in, slippage_bps) <= amount_in,
        slippage_bps > 0 ==> swap_output(amount_in, slippage_bps) < amount_in,
        slippage_bps == 0 ==> swap_output(amount_in, slippage_bps) == amount_in,
{
    let d = BPS_DENOMINATOR as int;
    let m = d - slippage_bps;
    let p = amount_in * m;
    lemma_mul_nonnegative(amount_in, m);
    lemma_div_pos_is_pos(p, d);
    lemma_mul_inequality(m, d, amount_in);
    assert(m * amount_in == amount_in * m);
    lemma_div_is_ordered(p, amount_in * d, d);
    lemma_div_multiples_vanish(amount_in, d);
    assert(d * amount_in == amount_in * d);
    if slippage_bps > 0 {
        lemma_mul_inequality(m, d - 1, amount_in);
        assert(amount_in * m <= amount_in * (d - 1));
        assert(amount_in * (d - 1) == amount_in * d - amount_in);
        lemma_div_is_ordered(p, amount_in * d - 1, d);
        lemma_div_multiples_vanish_fancy(amount_in - 1, d - 1, d);
        assert(d * (amount_in - 1) + (d - 1) == amount_in * d - 1);
    }
}

/// For a fixed input, the output is non-increasing as the slippage
/// tolerance grows.
pub proof fn lemma_swap_output_monotonic(amount_in: int, lo_bps: int, hi_bps: int)
    requires
        0 <= amount_in,
        0 <= lo_bps <= hi_bps <= BPS_DENOMINATOR,
    ensures
        swap_output(amount_in, hi_bps) <= swap_output(amount_in, lo_bps),
{
    let d = BPS_DENOMINATOR as int;
    lemma_mul_inequality(d - hi_bps, d - lo_bps, amount_in);
    assert((d - hi_bps) * amount_in == amount_in * (d - hi_bps));
    assert((d - lo_bps) * amount_in == amount_in * (d - lo_bps));
    lemma_div_is_ordered(amount_in * (d - hi_bps), amount_in * (d - lo_bps), d);
}

/// Computes the swap output in machine arithmetic; the registration cap
/// on swap amounts keeps the intermediate product inside `i128`.
pub fn compute_swap_output(amount_in: i128, slippage_bps: u32) -> (r: i128)
    requires
        0 <= amount_in <= MAX_SWAP_AMOUNT,
        slippage_bps <= BPS_DENOMINATOR,
    ensures
        r == swap_output(amount_in as int, slippage_bps as int),
        0 <= r <= amount_in,
{
    let multiplier: i128 = (BPS_DENOMINATOR - slippage_bps) as i128;
    proof {
        if amount_in == 0 {
            assert(0 * multiplier == 0);
            lemma_div_of0(BPS_DENOMINATOR as int);
        } else {
            lemma_mul_nonnegative(amount_in as int, multiplier as int);
            lemma_mul_inequality(multiplier as int, BPS_DENOMINATOR as int, amount_in as int);
            assert(multiplier * amount_in == amount_in * multiplier);
            lemma_mul_inequality(amount_in as int, MAX_SWAP_AMOUNT as int, BPS_DENOMINATOR as int);
            assert(amount_in * (BPS_DENOMINATOR as int) == (BPS_DENOMINATOR as int) * amount_in);
            lemma_swap_output_bounds(amount_in as int, slippage_bps as int);
        }
    }
    (amount_in * multiplier) / 10000
}

} // verus!
