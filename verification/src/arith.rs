//! Checked and saturating arithmetic on the ledger's wide balance type.
//!
//! The engine never relies on wraparound: every multiplication and addition
//! on balances either reports overflow or clamps at the numeric ceiling.

use vstd::arithmetic::div_mod::{lemma_fundamental_div_mod, lemma_mod_bound};
use vstd::prelude::*;

verus! {

/// Comparing against a quotient decides overflow of the product:
/// for `b >= 1`, `a > m / b` holds exactly when `a * b > m`.
pub proof fn lemma_mul_overflow_check(a: int, b: int, m: int)
    requires
        0 <= a,
        1 <= b,
        0 <= m,
    ensures
        a > m / b <==> a * b > m,
        a * b == b * a,
{
    let q = m / b;
    let r = m % b;
    lemma_fundamental_div_mod(m, b);
    lemma_mod_bound(m, b);
    assert((a > q <==> a * b > m) && a * b == b * a) by (nonlinear_arith)
        requires
            m == b * q + r,
            0 <= r < b,
            0 <= a,
            1 <= b,
    ;
}

/// Multiplication that reports overflow: `Some` exactly when the product
/// fits in a `u128`.
pub fn checked_mul_u128(a: u128, b: u128) -> (r: Option<u128>)
    ensures
        a * b <= u128::MAX as int ==> r == Some((a * b) as u128),
        a * b > u128::MAX as int ==> r is None,
{
    if a == 0 {
        Some(0)
    } else {
        proof {
            lemma_mul_overflow_check(b as int, a as int, u128::MAX as int);
        }
        if b > u128::MAX / a {
            None
        } else {
            Some(a * b)
        }
    }
}

/// Addition that clamps at the numeric ceiling instead of wrapping.
pub fn saturating_add_u128(a: u128, b: u128) -> (r: u128)
    ensures
        r as int == if a + b > u128::MAX as int {
            u128::MAX as int
        } else {
            a + b
        },
{
    if a > u128::MAX - b {
        u128::MAX
    } else {
        a + b
    }
}

} // verus!
