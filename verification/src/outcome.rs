//! Outcome determination: reduce a timestamp, a slot counter and one byte of
//! the resolver's identity to a single coin side.
//!
//! The mixing function is the parity of `timestamp * slot + secret`. Note a
//! known design weakness, kept behind this module's boundary on purpose: the
//! timestamp and slot are publicly observable, so the party who chooses when
//! to resolve can simulate the mix before committing. A production deployment
//! should swap this module for a verifiable random function or a
//! commit-reveal seed; the state machine around it does not change.
use vstd::prelude::*;

use vstd::arithmetic::div_mod::lemma_add_mod_noop;
use vstd::arithmetic::div_mod::lemma_mod_division_less_than_divisor;
use vstd::arithmetic::div_mod::lemma_mul_mod_noop_general;
use vstd::arithmetic::div_mod::lemma_small_mod;

use crate::state::CoinSide;

verus! {

/// The resolved side: `Heads` when `ts * slot + secret` is even, `Tails`
/// when it is odd.
pub open spec fn flip_result(ts: i64, slot: u64, secret: u8) -> CoinSide {
    if (ts * slot + secret) % 2 == 1 {
        CoinSide::Tails
    } else {
        CoinSide::Heads
    }
}

/// Compute the coin side from the three entropy inputs.
pub fn compute_flip(ts: i64, slot: u64, secret: u8) -> (r: CoinSide)
    ensures
        r == flip_result(ts, slot, secret),
{
    let ts_bits: u64 = #[verifier::truncate] (ts as u64);
    let t: u64 = ts_bits % 2;
    let s: u64 = slot % 2;
    let b: u64 = (secret as u64) % 2;
    proof {
        lemma_mod_division_less_than_divisor(ts_bits as int, 2);
        lemma_mod_division_less_than_divisor(slot as int, 2);
        lemma_mod_division_less_than_divisor(secret as int, 2);
        assert(t * s <= 1) by (nonlinear_arith)
            requires
                t <= 1,
                s <= 1,
        ;
    }
    let v: u64 = (t * s + b) % 2;
    proof {
        assert(ts_bits % 2 == ts % 2) by (bit_vector)
            requires
                ts_bits == ts as u64,
        ;
        lemma_small_mod((t * s) as nat, 2);
        lemma_add_mod_noop(t as int * s as int, secret as int, 2);
        lemma_mul_mod_noop_general(ts as int, slot as int, 2);
        lemma_add_mod_noop(ts as int * slot as int, secret as int, 2);
    }
    if v == 1 {
        CoinSide::Tails
    } else {
        CoinSide::Heads
    }
}

} // verus!
