//! The two persisted records — the platform ledger and one wager — and their
//! well-formedness invariants.
use vstd::prelude::*;

use crate::label::check_lobby_name;
use crate::label::valid_lobby_name;
use crate::MINIMUM_BET_LAMPORTS;

verus! {

/// A participant or wallet identity. The engine never verifies signatures: it
/// only compares identities handed to it by an authenticated invocation
/// layer, and reads one byte of the resolver's identity as entropy.
#[derive(Clone, Copy, Debug, PartialEq, Eq, Structural)]
pub struct Identity {
    pub value: u64,
}

impl Identity {
    /// The low byte of the identity, the resolver's secret contribution to
    /// the coin mix.
    pub open spec fn spec_low_byte(self) -> u8 {
        (self.value % 256) as u8
    }

    /// Executable form of [`Self::spec_low_byte`].
    pub fn low_byte(self) -> (b: u8)
        ensures
            b == self.spec_low_byte(),
    {
        (self.value % 256) as u8
    }
}

/// Where a wager stands in its lifecycle.
///
/// `Active` (open, waiting for an opponent) may move to `InProgress` (matched)
/// or be cancelled; `InProgress` may only move to `Finished` (resolved);
/// `Finished` ends with the winner's claim. Cancellation and claim destroy
/// the record, so neither is a state of its own.
#[derive(Clone, Copy, Debug, PartialEq, Eq, Structural)]
pub enum GameStatus {
    Active,
    InProgress,
    Finished,
}

/// The two sides of the coin.
#[derive(Clone, Copy, Debug, PartialEq, Eq, Structural)]
pub enum CoinSide {
    Heads,
    Tails,
}

/// The platform ledger: process-wide aggregate counters and the identity
/// that receives fee revenue. Created once; never destroyed.
#[derive(Clone, Copy, Debug, PartialEq, Eq, Structural)]
pub struct Platform {
    /// Identity permitted to initialize the ledger; immutable afterwards.
    pub authority: Identity,
    /// Identity that receives platform fee revenue.
    pub fee_wallet: Identity,
    /// Wagers ever created.
    pub total_games: u64,
    /// Lamports ever wagered, counted as both stakes at the moment a wager
    /// resolves — not at creation or cancellation.
    pub total_volume: u64,
    /// Wagers created and not yet resolved or cancelled.
    pub active_games: u64,
}

/// One wager, from creation to terminal settlement.
#[derive(Debug)]
pub struct Game {
    /// The identity that opened the wager and staked first.
    pub creator: Identity,
    /// Display name of the lobby, 1 to 20 alphanumeric characters.
    pub lobby_name: String,
    /// The nominal stake each side puts up.
    pub bet_amount: u64,
    /// Timestamp of creation; the join window is measured from it.
    pub created_at: i64,
    /// Lifecycle state.
    pub status: GameStatus,
    /// The opponent, absent until joined.
    pub player: Option<Identity>,
    /// The resolved winner, absent until resolved.
    pub winner: Option<Identity>,
    /// The resolved coin side, absent until resolved.
    pub result: Option<CoinSide>,
    /// The side the opponent predicted, set at resolution.
    pub player_choice: Option<CoinSide>,
    /// Lamports this wager holds in escrow above the rent floor. Equals one
    /// stake while open, both stakes once matched, and reaches zero exactly
    /// when a terminal transition pays everything out and destroys the record.
    pub escrowed_amount: u64,
}

impl Game {
    /// Well-formedness: the record a creator's stake establishes and every
    /// transition preserves. The escrow tracks the lifecycle exactly: one
    /// stake while open, both stakes once matched, and the optional fields
    /// are present precisely from the transition that sets them.
    pub open spec fn wf(self) -> bool {
        &&& valid_lobby_name(self.lobby_name@)
        &&& MINIMUM_BET_LAMPORTS <= self.bet_amount
        &&& self.bet_amount <= u64::MAX / 2
        &&& match self.status {
            GameStatus::Active => {
                &&& self.escrowed_amount == self.bet_amount
                &&& self.player is None
                &&& self.winner is None
                &&& self.result is None
                &&& self.player_choice is None
            },
            GameStatus::InProgress => {
                &&& self.escrowed_amount == 2 * self.bet_amount
                &&& self.player is Some
                &&& self.winner is None
                &&& self.result is None
                &&& self.player_choice is None
            },
            GameStatus::Finished => {
                &&& self.escrowed_amount == 2 * self.bet_amount
                &&& self.player is Some
                &&& self.winner is Some
                &&& self.result is Some
                &&& self.player_choice is Some
                &&& (self.winner->0 == self.creator || self.winner->0 == self.player->0)
            },
        }
    }

    /// Decide [`Self::wf`] at run time, for callers outside the proof who
    /// must establish it before handing the record to a transition.
    pub fn wf_check(&self) -> (r: bool)
        ensures
            r == self.wf(),
    {
        if !check_lobby_name(self.lobby_name.as_str()) {
            return false;
        }
        if self.bet_amount < MINIMUM_BET_LAMPORTS || self.bet_amount > u64::MAX / 2 {
            return false;
        }
        match self.status {
            GameStatus::Active => self.escrowed_amount == self.bet_amount && matches!(
                self.player,
                None,
            ) && matches!(self.winner, None) && matches!(self.result, None) && matches!(
                self.player_choice,
                None,
            ),
            GameStatus::InProgress => self.escrowed_amount == 2 * self.bet_amount && matches!(
                self.player,
                Some(_),
            ) && matches!(self.winner, None) && matches!(self.result, None) && matches!(
                self.player_choice,
                None,
            ),
            GameStatus::Finished => match (self.player, self.winner) {
                (Some(p), Some(w)) => self.escrowed_amount == 2 * self.bet_amount && matches!(
                    self.result,
                    Some(_),
                ) && matches!(self.player_choice, Some(_)) && (w == self.creator || w == p),
                _ => false,
            },
        }
    }
}

} // verus!
