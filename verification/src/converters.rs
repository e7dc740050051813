//! Pure numeric converters: execution weight to native fee, and native
//! balance to a bounded voting weight.

use vstd::prelude::*;

use crate::arith::checked_mul_u128;
use crate::{Balance, Weight};

verus! {

/// One more than the largest voting weight, i.e. `u64::MAX + 1`.
pub const VOTE_RANGE: u128 = 18_446_744_073_709_551_616;

/// Converts between a native balance and the bounded voting-weight scalar
/// used for election calculations, rescaling by the total issuance so that
/// results fit the 64-bit range.
pub struct CurrencyToVoteHandler;

/// The rescaling factor for one election round: how many balance units map
/// to one unit of voting weight, never less than one.
pub open spec fn spec_vote_factor(total_issuance: int) -> int {
    let f = total_issuance / (u64::MAX as int);
    if f < 1 {
        1
    } else {
        f
    }
}

impl CurrencyToVoteHandler {
    /// The factor `max(1, total_issuance / u64::MAX)`. Guarding against a
    /// factor below one prevents amplification past the voting range.
    pub fn factor(total_issuance: Balance) -> (r: Balance)
        ensures
            r as int == spec_vote_factor(total_issuance as int),
    {
        let f: u128 = total_issuance / 18_446_744_073_709_551_615u128;
        if f < 1 {
            1
        } else {
            f
        }
    }

    /// Scales a balance down into the voting-weight range. The quotient is
    /// narrowed to 64 bits; whenever it already fits, the conversion is
    /// exact.
    pub fn balance_to_vote(x: Balance, total_issuance: Balance) -> (r: u64)
        ensures
            r as int == (x as int / spec_vote_factor(total_issuance as int)) % (VOTE_RANGE as int),
            x as int / spec_vote_factor(total_issuance as int) <= u64::MAX as int ==> r as int == x
                as int / spec_vote_factor(total_issuance as int),
    {
        let q: u128 = x / Self::factor(total_issuance);
        let narrowed: u128 = q % VOTE_RANGE;
        narrowed as u64
    }
}

/// Scales a voting weight back up by the same factor. Both directions of one
/// election round must use the same issuance snapshot to stay
/// order-preserving.
impl CurrencyToVoteHandler {
    pub fn vote_to_balance(x: u128, total_issuance: Balance) -> (r: Balance)
        requires
            x * spec_vote_factor(total_issuance as int) <= u128::MAX as int,
        ensures
            r as int == x * spec_vote_factor(total_issuance as int),
    {
        let f = Self::factor(total_issuance);
        x * f
    }
}

/// Converts weight to fee by multiplication with a fixed coefficient in
/// units of balance per weight, clamping at the numeric ceiling of
/// `Balance` instead of overflowing.
pub struct LinearWeightToFee {
    /// Fee charged per unit of weight.
    pub coefficient: Balance,
}

/// The fee for `weight` units at `coefficient` balance per unit, saturating
/// at the largest representable balance.
pub open spec fn spec_weight_to_fee(weight: int, coefficient: int) -> int {
    if weight * coefficient > u128::MAX as int {
        u128::MAX as int
    } else {
        weight * coefficient
    }
}

impl LinearWeightToFee {
    pub fn new(coefficient: Balance) -> (r: LinearWeightToFee)
        ensures
            r.coefficient == coefficient,
    {
        LinearWeightToFee { coefficient }
    }

    /// WeightToFee: the linear fee, saturating on overflow.
    pub fn convert(&self, weight: Weight) -> (fee: Balance)
        ensures
            fee as int == spec_weight_to_fee(weight as int, self.coefficient as int),
    {
        match checked_mul_u128(weight as u128, self.coefficient) {
            Some(fee) => fee,
            None => u128::MAX,
        }
    }
}

} // verus!
