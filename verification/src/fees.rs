//! Settlement-time fee arithmetic.
//!
//! The policy is: full stakes are escrowed at creation and join, the fee is
//! taken only when the winner claims, and a pre-match cancellation refunds the
//! whole stake. The fee is computed with integer division and the remainder
//! stays with the larger share — the winner — never dropped or double-counted.
use vstd::prelude::*;

use vstd::arithmetic::div_mod::lemma_div_by_multiple;
use vstd::arithmetic::div_mod::lemma_div_is_ordered;
use vstd::arithmetic::div_mod::lemma_div_pos_is_pos;
use vstd::arithmetic::mul::lemma_mul_inequality;
use vstd::arithmetic::mul::lemma_mul_is_commutative;
use vstd::arithmetic::mul::lemma_mul_nonnegative;
use vstd::arithmetic::mul::lemma_mul_upper_bound;

verus! {

/// The platform's cut of a settled pot at `fee_bps` parts-per-thousand,
/// rounded down.
pub open spec fn fee_amount(pot: int, fee_bps: int) -> int {
    pot * fee_bps / 1000
}

/// The fee is never negative and never exceeds the pot, for any rate up to
/// the whole pot (1000 parts-per-thousand).
pub proof fn lemma_fee_bounds(pot: int, fee_bps: int)
    requires
        0 <= pot,
        0 <= fee_bps <= 1000,
    ensures
        0 <= fee_amount(pot, fee_bps) <= pot,
{
    lemma_mul_nonnegative(pot, fee_bps);
    lemma_div_pos_is_pos(pot * fee_bps, 1000);
    lemma_mul_inequality(fee_bps, 1000, pot);
    lemma_mul_is_commutative(pot, fee_bps);
    lemma_mul_is_commutative(pot, 1000);
    lemma_div_is_ordered(pot * fee_bps, pot * 1000, 1000);
    lemma_div_by_multiple(pot, 1000);
}

/// Split a settled pot into the winner's payout and the platform fee. The
/// two shares always give back the pot exactly, the division remainder
/// staying with the payout.
pub fn settlement_split(pot: u64, fee_bps: u64) -> (r: (u64, u64))
    requires
        fee_bps <= 1000,
    ensures
        r.1 == fee_amount(pot as int, fee_bps as int),
        r.0 == pot - fee_amount(pot as int, fee_bps as int),
        r.0 + r.1 == pot,
{
    proof {
        lemma_fee_bounds(pot as int, fee_bps as int);
        lemma_mul_upper_bound(pot as int, u64::MAX as int, fee_bps as int, 1000);
    }
    let scaled: u128 = (pot as u128) * (fee_bps as u128);
    let fee: u64 = (scaled / 1000) as u64;
    let payout: u64 = pot - fee;
    (payout, fee)
}

} // verus!
