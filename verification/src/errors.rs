//! Error classification for every wager transition.
//!
//! Validation errors (`InvalidLobbyName`, `BetTooLow`) are rejected before any
//! state is touched; the remaining variants are state-precondition errors:
//! the caller invoked the wrong transition, is not the identity the transition
//! demands, or missed the join deadline. No transition that returns an error
//! mutates the ledger or the wager record.
use vstd::prelude::*;

verus! {

/// Why a wager transition was refused.
#[derive(Clone, Copy, Debug, PartialEq, Eq, Structural)]
pub enum GameError {
    /// The lobby name is empty, longer than 20 characters, or not alphanumeric.
    InvalidLobbyName,
    /// The stake is below the platform minimum.
    BetTooLow,
    /// The wager is not open (already matched, resolved, or destroyed).
    GameNotActive,
    /// The join window has closed.
    GameExpired,
    /// The wager is not matched, so there is nothing to resolve.
    GameNotInProgress,
    /// The caller is not the opponent who joined this wager.
    NotPlayer,
    /// The wager is not resolved (or its record is already destroyed).
    GameNotFinished,
    /// The caller is not the resolved winner.
    NotWinner,
    /// The caller is not the creator of this wager.
    NotCreator,
}

} // verus!
