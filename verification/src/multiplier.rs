//! The congestion controller: adjusts the network-wide fee multiplier once
//! per block, from the previous multiplier and the weight the last block
//! consumed.

use vstd::arithmetic::div_mod::{
    lemma_basic_div, lemma_div_is_ordered, lemma_div_multiples_vanish, lemma_div_pos_is_pos,
};
use vstd::prelude::*;

use crate::fixed::{clip64, Fixed64, FIXED64_DIV};
use crate::Weight;

verus! {

/// Upper bound on the weight one block may consume.
pub const MAX_BLOCK_WEIGHT: Weight = 1_000_000_000;

/// The weight at which fees neither rise nor fall: a quarter of a full block.
pub const TARGET_BLOCK_WEIGHT: Weight = MAX_BLOCK_WEIGHT / 4;

/// Mantissa of the per-block adjustment coefficient `v = 0.00004`.
pub const ADJUSTMENT_COEFFICIENT_PARTS: i64 = 40_000;

/// Mantissa of `v^2 / 2`, which rounds to one billionth.
pub const ADJUSTMENT_COEFFICIENT_SQUARED_HALF_PARTS: i64 = 1;

/// The mantissa of the next multiplier, as a mathematical integer.
///
/// With `diff` the distance from the target expressed as a fixed-point ratio
/// of a full block, the controller adds `v * diff + (v^2 / 2) * diff^2` when
/// the block was above target and subtracts `v * diff - (v^2 / 2) * diff^2`
/// when it was below, clamping the result at the `-1.0` floor.
pub open spec fn spec_next_multiplier_parts(block_weight: int, prev: int) -> int {
    let target = TARGET_BLOCK_WEIGHT as int;
    let div = FIXED64_DIV as int;
    let max = MAX_BLOCK_WEIGHT as int;
    if block_weight >= target {
        let d = block_weight - target;
        let diff = d * div / max;
        let first = ADJUSTMENT_COEFFICIENT_PARTS * diff / div;
        let second = ADJUSTMENT_COEFFICIENT_SQUARED_HALF_PARTS * (diff * diff / div) / div;
        clip64(prev + (first + second))
    } else {
        let d = target - block_weight;
        let diff = d * div / max;
        let first = ADJUSTMENT_COEFFICIENT_PARTS * diff / div;
        let second = ADJUSTMENT_COEFFICIENT_SQUARED_HALF_PARTS * (diff * diff / div) / div;
        let lowered = clip64(prev - (first - second));
        if lowered < -div {
            -div
        } else {
            lowered
        }
    }
}

/// Scaling a weight distance into billionths and back cancels, because the
/// fixed-point scale equals the maximum block weight.
proof fn lemma_scale_cancel(d: int)
    requires
        0 <= d,
    ensures
        d * (FIXED64_DIV as int) / (MAX_BLOCK_WEIGHT as int) == d,
{
    lemma_div_multiples_vanish(d, FIXED64_DIV as int);
    assert((FIXED64_DIV as int) * d == d * (FIXED64_DIV as int)) by (nonlinear_arith);
}

/// Bounds for the two adjustment terms, given a bound on the weight distance
/// `d` from the target.
proof fn lemma_term_bounds(d: int)
    requires
        0 <= d <= u32::MAX as int,
    ensures
        0 <= ADJUSTMENT_COEFFICIENT_PARTS * d / (FIXED64_DIV as int) <= 171_799,
        0 <= d * d / (FIXED64_DIV as int) <= 18_446_744_066,
        0 <= (d * d / (FIXED64_DIV as int)) / (FIXED64_DIV as int) <= 18,
        d <= TARGET_BLOCK_WEIGHT as int ==> (d * d / (FIXED64_DIV as int)) / (
        FIXED64_DIV as int) == 0,
{
    let div = FIXED64_DIV as int;
    assert(0 <= 40_000 * d <= 171_798_691_800_000) by (nonlinear_arith)
        requires
            0 <= d <= u32::MAX as int,
    ;
    lemma_div_pos_is_pos(40_000 * d, div);
    lemma_div_is_ordered(40_000 * d, 171_798_691_800_000, div);
    assert(0 <= d * d <= 18_446_744_065_119_617_025) by (nonlinear_arith)
        requires
            0 <= d <= u32::MAX as int,
    ;
    lemma_div_pos_is_pos(d * d, div);
    lemma_div_is_ordered(d * d, 18_446_744_065_119_617_025, div);
    lemma_div_pos_is_pos(d * d / div, div);
    lemma_div_is_ordered(d * d / div, 18_446_744_066, div);
    if d <= TARGET_BLOCK_WEIGHT as int {
        assert(d * d <= 62_500_000_000_000_000) by (nonlinear_arith)
            requires
                0 <= d <= 250_000_000,
        ;
        lemma_div_is_ordered(d * d, 62_500_000_000_000_000, div);
        lemma_basic_div(d * d / div, div);
    }
}

/// The multiplier mantissa after `k` consecutive blocks of constant weight
/// `block_weight`, starting from `start`.
pub open spec fn spec_iterate_multiplier(block_weight: int, start: int, k: nat) -> int
    decreases k,
{
    if k == 0 {
        start
    } else {
        spec_next_multiplier_parts(
            block_weight,
            spec_iterate_multiplier(block_weight, start, (k - 1) as nat),
        )
    }
}

/// A block below the target never raises the multiplier, and the result
/// never falls below the `-1.0` floor.
pub proof fn lemma_below_target_never_raises(block_weight: int, prev: int)
    requires
        0 <= block_weight < TARGET_BLOCK_WEIGHT as int,
        -(FIXED64_DIV as int) <= prev <= i64::MAX as int,
    ensures
        spec_next_multiplier_parts(block_weight, prev) <= prev,
        spec_next_multiplier_parts(block_weight, prev) >= -(FIXED64_DIV as int),
{
    let d = TARGET_BLOCK_WEIGHT as int - block_weight;
    lemma_scale_cancel(d);
    lemma_term_bounds(d);
}

/// A block at or above the target never lowers the multiplier.
pub proof fn lemma_above_target_never_lowers(block_weight: int, prev: int)
    requires
        TARGET_BLOCK_WEIGHT as int <= block_weight <= u32::MAX as int,
        i64::MIN as int <= prev <= i64::MAX as int,
    ensures
        spec_next_multiplier_parts(block_weight, prev) >= prev,
{
    let d = block_weight - TARGET_BLOCK_WEIGHT as int;
    lemma_scale_cancel(d);
    lemma_term_bounds(d);
}

/// At the target weight the adjustment is exactly zero: the multiplier is a
/// fixed point of the update.
pub proof fn lemma_at_target_unchanged(prev: int)
    requires
        i64::MIN as int <= prev <= i64::MAX as int,
    ensures
        spec_next_multiplier_parts(TARGET_BLOCK_WEIGHT as int, prev) == prev,
{
    lemma_scale_cancel(0);
    lemma_term_bounds(0);
}

/// One empty block moves the multiplier down by exactly `0.00001`, stopping
/// at the `-1.0` floor; the floor itself is a fixed point.
pub proof fn lemma_empty_block_step(prev: int)
    requires
        -(FIXED64_DIV as int) <= prev <= i64::MAX as int,
    ensures
        spec_next_multiplier_parts(0, prev) == if prev - 10_000 >= -(FIXED64_DIV as int) {
            prev - 10_000
        } else {
            -(FIXED64_DIV as int)
        },
        prev == -(FIXED64_DIV as int) ==> spec_next_multiplier_parts(0, prev) == prev,
{
    let d = TARGET_BLOCK_WEIGHT as int;
    lemma_scale_cancel(d);
    lemma_term_bounds(d);
    assert(ADJUSTMENT_COEFFICIENT_PARTS * d == 10_000_000_000_000);
    lemma_div_multiples_vanish(10_000, FIXED64_DIV as int);
    assert((FIXED64_DIV as int) * 10_000 == 10_000_000_000_000);
}

/// Repeated empty blocks: after `k` of them the multiplier has fallen by
/// exactly `0.00001` per block, until it reaches `-1.0` exactly and stays
/// there. In particular it converges to the floor once
/// `10_000 * k >= start + FIXED64_DIV`.
pub proof fn lemma_empty_chain_collapses(start: int, k: nat)
    requires
        -(FIXED64_DIV as int) <= start <= i64::MAX as int,
    ensures
        spec_iterate_multiplier(0, start, k) == if start - 10_000 * k >= -(FIXED64_DIV as int) {
            start - 10_000 * k
        } else {
            -(FIXED64_DIV as int)
        },
    decreases k,
{
    if k > 0 {
        lemma_empty_chain_collapses(start, (k - 1) as nat);
        lemma_empty_block_step(spec_iterate_multiplier(0, start, (k - 1) as nat));
        assert(10_000 * k == 10_000 * (k - 1) + 10_000) by (nonlinear_arith);
    }
}

/// One block at twice the target raises the multiplier by exactly `0.00001`,
/// strictly whenever the numeric ceiling leaves room.
pub proof fn lemma_congested_block_step(prev: int)
    requires
        i64::MIN as int <= prev <= i64::MAX as int,
    ensures
        spec_next_multiplier_parts(2 * TARGET_BLOCK_WEIGHT as int, prev) == if prev + 10_000
            <= i64::MAX as int {
            prev + 10_000
        } else {
            i64::MAX as int
        },
        prev < i64::MAX as int ==> spec_next_multiplier_parts(2 * TARGET_BLOCK_WEIGHT as int, prev)
            > prev,
{
    let d = TARGET_BLOCK_WEIGHT as int;
    lemma_scale_cancel(d);
    lemma_term_bounds(d);
    assert(ADJUSTMENT_COEFFICIENT_PARTS * d == 10_000_000_000_000);
    lemma_div_multiples_vanish(10_000, FIXED64_DIV as int);
    assert((FIXED64_DIV as int) * 10_000 == 10_000_000_000_000);
}

/// Sustained congestion at twice the target raises the multiplier without
/// bound: after `k` such blocks it has grown by exactly `0.00001` per block,
/// limited only by the numeric ceiling.
pub proof fn lemma_congested_chain_grows(start: int, k: nat)
    requires
        i64::MIN as int <= start <= i64::MAX as int,
    ensures
        spec_iterate_multiplier(2 * TARGET_BLOCK_WEIGHT as int, start, k) == if start + 10_000 * k
            <= i64::MAX as int {
            start + 10_000 * k
        } else {
            i64::MAX as int
        },
    decreases k,
{
    if k > 0 {
        lemma_congested_chain_grows(start, (k - 1) as nat);
        lemma_congested_block_step(
            spec_iterate_multiplier(2 * TARGET_BLOCK_WEIGHT as int, start, (k - 1) as nat),
        );
        assert(10_000 * k == 10_000 * (k - 1) + 10_000) by (nonlinear_arith);
    }
}

/// The update is monotonically increasing in the block weight: for a fixed
/// previous multiplier, a fuller block never yields a smaller next
/// multiplier.
pub proof fn lemma_monotone_in_block_weight(w1: int, w2: int, prev: int)
    requires
        0 <= w1 <= w2 <= u32::MAX as int,
        -(FIXED64_DIV as int) <= prev <= i64::MAX as int,
    ensures
        spec_next_multiplier_parts(w1, prev) <= spec_next_multiplier_parts(w2, prev),
{
    let t = TARGET_BLOCK_WEIGHT as int;
    let div = FIXED64_DIV as int;
    if w2 < t {
        // Both below target: the deeper shortfall subtracts at least as much,
        // and neither second term contributes.
        let d1 = t - w1;
        let d2 = t - w2;
        lemma_scale_cancel(d1);
        lemma_scale_cancel(d2);
        lemma_term_bounds(d1);
        lemma_term_bounds(d2);
        lemma_div_is_ordered(40_000 * d2, 40_000 * d1, div);
    } else if w1 >= t {
        // Both at or above target: both terms grow with the excess.
        let d1 = w1 - t;
        let d2 = w2 - t;
        lemma_scale_cancel(d1);
        lemma_scale_cancel(d2);
        lemma_term_bounds(d1);
        lemma_term_bounds(d2);
        lemma_div_is_ordered(40_000 * d1, 40_000 * d2, div);
        assert(d1 * d1 <= d2 * d2) by (nonlinear_arith)
            requires
                0 <= d1 <= d2,
        ;
        lemma_div_is_ordered(d1 * d1, d2 * d2, div);
        lemma_div_is_ordered(d1 * d1 / div, d2 * d2 / div, div);
    } else {
        // Straddling the target: below never raises, above never lowers.
        lemma_below_target_never_raises(w1, prev);
        lemma_above_target_never_lowers(w2, prev);
    }
}

/// Sustained congestion at twice the target eventually exceeds any bound the
/// numeric range can hold: there is no saturation ceiling below it.
pub proof fn lemma_congested_chain_exceeds(start: int, bound: int)
    requires
        i64::MIN as int <= start <= i64::MAX as int,
        bound <= i64::MAX as int,
    ensures
        exists|k: nat|
            #[trigger] spec_iterate_multiplier(2 * TARGET_BLOCK_WEIGHT as int, start, k) >= bound,
{
    let k: nat = if bound <= start {
        0
    } else {
        (((bound - start) / 10_000) + 1) as nat
    };
    lemma_congested_chain_grows(start, k);
    if bound > start {
        vstd::arithmetic::div_mod::lemma_fundamental_div_mod(bound - start, 10_000);
        assert(10_000 * k >= bound - start);
    }
    assert(spec_iterate_multiplier(2 * TARGET_BLOCK_WEIGHT as int, start, k) >= bound);
}

/// At the numeric extremes the update saturates: a block weight at or above
/// the target - up to the numeric maximum - combined with a multiplier
/// already at the numeric ceiling returns the ceiling, never a wrapped
/// negative value.
pub proof fn lemma_saturates_at_numeric_ceiling(block_weight: int)
    requires
        TARGET_BLOCK_WEIGHT as int <= block_weight <= u32::MAX as int,
    ensures
        spec_next_multiplier_parts(block_weight, i64::MAX as int) == i64::MAX as int,
{
    lemma_above_target_never_lowers(block_weight, i64::MAX as int);
}

/// A struct that updates the fee multiplier based on the fullness of the
/// previous block. Intended to run once per block.
///
/// A block above [`TARGET_BLOCK_WEIGHT`] makes fees grow slightly; a block
/// below it makes them shrink, never past the `-1.0` floor.
pub struct FeeMultiplierUpdateHandler;

impl FeeMultiplierUpdateHandler {
    /// Produces the next fee multiplier from the weight consumed by the last
    /// block and the previous multiplier. Deterministic and total: every
    /// intermediate step saturates instead of overflowing.
    pub fn convert(previous_state: (Weight, Fixed64)) -> (next: Fixed64)
        ensures
            next.parts as int == spec_next_multiplier_parts(
                previous_state.0 as int,
                previous_state.1.parts as int,
            ),
    {
        let (block_weight, multiplier) = previous_state;
        let target_weight: u64 = TARGET_BLOCK_WEIGHT as u64;
        let current_weight: u64 = block_weight as u64;

        // Whether the adjustment is added or subtracted.
        let positive: bool = current_weight >= target_weight;
        let diff_abs: u64 = if positive {
            current_weight - target_weight
        } else {
            target_weight - current_weight
        };

        proof {
            lemma_scale_cancel(diff_abs as int);
            lemma_term_bounds(diff_abs as int);
        }

        // The distance from the target as a ratio of a full block.
        let diff = Fixed64::from_rational(diff_abs as i64, MAX_BLOCK_WEIGHT as u64);
        let diff_squared = diff.saturating_mul(diff);

        // v = 0.00004 and v^2 / 2, the latter rounded to one billionth.
        let v = Fixed64::from_rational(4, 100_000);
        let v_squared_2 = Fixed64::from_rational(1, 1_000_000_000);

        let first_term = v.saturating_mul(diff);
        let second_term = v_squared_2.saturating_mul(diff_squared);

        if positive {
            let excess = first_term.saturating_add(second_term);
            multiplier.saturating_add(excess)
        } else {
            let negative = first_term.saturating_sub(second_term);
            let reduced = multiplier.saturating_sub(negative);
            // Stop at -1.0: at the floor all transactions are free of weight
            // fees, and the multiplier only moves again once blocks fill up.
            if reduced.parts < -FIXED64_DIV {
                Fixed64::from_parts(-FIXED64_DIV)
            } else {
                reduced
            }
        }
    }
}

} // verus!
