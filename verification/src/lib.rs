//! Two-party wager escrow: two participants each stake the same amount, a
//! binary coin-flip outcome is resolved, and the pot minus a platform fee is
//! paid to the winner.
//!
//! The library is the escrow and settlement state machine: wager lifecycle
//! (`Open -> Matched -> Resolved`, or `Open -> Cancelled`), fee accounting,
//! refund policy, and the platform-wide aggregate counters. Fund transfers,
//! account custody and the clock belong to the host environment; every
//! transition here is a function from plain values to plain values, and the
//! amounts each transition says to move are returned to the caller.
use vstd::prelude::*;

pub mod engine;
pub mod errors;
pub mod fees;
pub mod label;
pub mod laws;
pub mod outcome;
pub mod state;
pub mod transitions;

verus! {

/// Platform fee rate in parts-per-thousand, taken from the pot at settlement.
pub const PLATFORM_FEE_PERCENTAGE: u8 = 25;

/// Smallest stake a creator may open a wager with, in lamports.
pub const MINIMUM_BET_LAMPORTS: u64 = 3_000_000;

/// Seconds an open wager stays joinable after its creation.
pub const LOBBY_EXPIRY_TIME: i64 = 86400;

} // verus!
