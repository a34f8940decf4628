//! End-to-end lifecycle scenarios through the engine.
use battleflip::engine::Engine;
use battleflip::errors::GameError;
use battleflip::state::CoinSide;
use battleflip::state::Identity;
use battleflip::MINIMUM_BET_LAMPORTS;

const STAKE: u64 = 3_000_000;

fn authority() -> Identity {
    Identity { value: 1 }
}

fn fee_wallet() -> Identity {
    Identity { value: 2 }
}

fn creator() -> Identity {
    Identity { value: 3 }
}

/// An opponent whose identity byte is zero, so the coin at `now = 0` is
/// deterministically `Heads` whatever the slot.
fn opponent() -> Identity {
    Identity { value: 256 }
}

fn new_engine() -> Engine {
    Engine::new(authority(), fee_wallet())
}

#[test]
fn create_join_resolve_claim_pays_pot_minus_fee() {
    let mut e = new_engine();
    let id = e.create(creator(), "lobby1".to_string(), STAKE, 0).unwrap();
    assert_eq!(id, 0);
    assert_eq!(e.platform.active_games, 1);
    assert_eq!(e.platform.total_games, 1);
    assert_eq!(e.platform.total_volume, 0);

    e.join(id, opponent(), 10).unwrap();

    // opponent byte 0, timestamp 0: 0 * slot + 0 is even, the coin is Heads;
    // predicting Heads makes the opponent the winner.
    e.resolve(id, opponent(), CoinSide::Heads, 0, 77).unwrap();
    assert_eq!(e.platform.active_games, 0);
    assert_eq!(e.platform.total_volume, 2 * STAKE);

    let s = e.claim(id, opponent()).unwrap();
    assert_eq!(s.winner, opponent());
    assert_eq!(s.platform_fee, 150_000);
    assert_eq!(s.winner_amount, 5_850_000);
    // every lamport that went in comes out: winner payout plus fee.
    assert_eq!(s.winner_amount + s.platform_fee, 6_000_000);
}

#[test]
fn resolve_against_prediction_pays_creator() {
    let mut e = new_engine();
    let id = e.create(creator(), "lobby1".to_string(), STAKE, 0).unwrap();
    e.join(id, opponent(), 10).unwrap();

    // the coin is Heads (see above); predicting Tails makes the creator win.
    e.resolve(id, opponent(), CoinSide::Tails, 0, 77).unwrap();
    assert_eq!(e.claim(id, opponent()).unwrap_err(), GameError::NotWinner);
    let s = e.claim(id, creator()).unwrap();
    assert_eq!(s.winner, creator());
    assert_eq!(s.winner_amount + s.platform_fee, 2 * STAKE);
}

#[test]
fn claim_is_satisfied_at_most_once() {
    let mut e = new_engine();
    let id = e.create(creator(), "lobby1".to_string(), STAKE, 0).unwrap();
    e.join(id, opponent(), 10).unwrap();
    e.resolve(id, opponent(), CoinSide::Heads, 0, 77).unwrap();
    e.claim(id, opponent()).unwrap();
    // the record is destroyed; a second claim fails like an unresolved wager.
    assert_eq!(e.claim(id, opponent()).unwrap_err(), GameError::GameNotFinished);
    assert_eq!(e.claim(id, creator()).unwrap_err(), GameError::GameNotFinished);
}

#[test]
fn cancel_after_join_always_fails() {
    let mut e = new_engine();
    let id = e.create(creator(), "lobby1".to_string(), STAKE, 0).unwrap();
    e.join(id, opponent(), 10).unwrap();
    assert_eq!(e.cancel(id, creator()).unwrap_err(), GameError::GameNotActive);
    assert_eq!(e.cancel(id, opponent()).unwrap_err(), GameError::GameNotActive);
    assert_eq!(e.cancel(id, authority()).unwrap_err(), GameError::GameNotActive);
}

#[test]
fn cancel_refunds_full_stake_and_restores_counter() {
    let mut e = new_engine();
    let before = e.platform.active_games;
    let id = e.create(creator(), "lobby1".to_string(), STAKE, 0).unwrap();
    assert_eq!(e.platform.active_games, before + 1);
    let refund = e.cancel(id, creator()).unwrap();
    // settlement-time fee policy: no fee was taken, the refund is the whole
    // stake, and the active counter is back where it started.
    assert_eq!(refund, STAKE);
    assert_eq!(e.platform.active_games, before);
    assert_eq!(e.platform.total_volume, 0);
    // the record is destroyed: cancelling again fails like a missing wager.
    assert_eq!(e.cancel(id, creator()).unwrap_err(), GameError::GameNotActive);
}

#[test]
fn active_games_counts_creations_minus_completions() {
    let mut e = new_engine();
    let a = e.create(creator(), "one".to_string(), STAKE, 0).unwrap();
    let b = e.create(creator(), "two".to_string(), STAKE, 0).unwrap();
    let c = e.create(creator(), "three".to_string(), STAKE, 0).unwrap();
    assert_eq!(e.platform.active_games, 3);

    // one cancellation and one resolve-then-claim: two completions.
    e.cancel(a, creator()).unwrap();
    e.join(c, opponent(), 1).unwrap();
    e.resolve(c, opponent(), CoinSide::Heads, 0, 5).unwrap();
    assert_eq!(e.platform.active_games, 1);
    // the claim itself no longer changes the counter.
    e.claim(c, opponent()).unwrap();
    assert_eq!(e.platform.active_games, 1);
    assert_eq!(b, 1);
    assert_eq!(e.platform.total_games, 3);
}

#[test]
fn minimum_stake_is_a_sharp_boundary() {
    let mut e = new_engine();
    assert_eq!(
        e.create(creator(), "lobby1".to_string(), MINIMUM_BET_LAMPORTS - 1, 0).unwrap_err(),
        GameError::BetTooLow
    );
    assert_eq!(e.platform.total_games, 0);
    let id = e.create(creator(), "lobby1".to_string(), MINIMUM_BET_LAMPORTS, 0).unwrap();
    assert_eq!(id, 0);
}

#[test]
fn join_window_is_a_sharp_boundary() {
    let mut e = new_engine();
    let created_at: i64 = 1_000;
    let id = e.create(creator(), "lobby1".to_string(), STAKE, created_at).unwrap();
    // one second before expiry: joinable.
    let id2 = e.create(creator(), "lobby2".to_string(), STAKE, created_at).unwrap();
    e.join(id, opponent(), created_at + 86_400 - 1).unwrap();
    // exactly at expiry: no longer joinable.
    assert_eq!(
        e.join(id2, opponent(), created_at + 86_400).unwrap_err(),
        GameError::GameExpired
    );
}

#[test]
fn wrong_state_and_wrong_caller_are_rejected() {
    let mut e = new_engine();
    let id = e.create(creator(), "lobby1".to_string(), STAKE, 0).unwrap();

    // open wager: not resolvable, not claimable, not joinable twice.
    assert_eq!(
        e.resolve(id, opponent(), CoinSide::Heads, 0, 1).unwrap_err(),
        GameError::GameNotInProgress
    );
    assert_eq!(e.claim(id, creator()).unwrap_err(), GameError::GameNotFinished);
    assert_eq!(e.cancel(id, opponent()).unwrap_err(), GameError::NotCreator);

    e.join(id, opponent(), 1).unwrap();
    assert_eq!(e.join(id, opponent(), 2).unwrap_err(), GameError::GameNotActive);
    // only the opponent who joined may resolve.
    assert_eq!(
        e.resolve(id, creator(), CoinSide::Heads, 0, 1).unwrap_err(),
        GameError::NotPlayer
    );

    // unknown ids fail like wagers in the wrong state.
    assert_eq!(e.join(9, opponent(), 1).unwrap_err(), GameError::GameNotActive);
    assert_eq!(
        e.resolve(9, opponent(), CoinSide::Heads, 0, 1).unwrap_err(),
        GameError::GameNotInProgress
    );
    assert_eq!(e.claim(9, opponent()).unwrap_err(), GameError::GameNotFinished);
    assert_eq!(e.cancel(9, creator()).unwrap_err(), GameError::GameNotActive);
}

#[test]
fn lobby_name_validation() {
    let mut e = new_engine();
    assert_eq!(
        e.create(creator(), "".to_string(), STAKE, 0).unwrap_err(),
        GameError::InvalidLobbyName
    );
    assert_eq!(
        e.create(creator(), "a".repeat(21), STAKE, 0).unwrap_err(),
        GameError::InvalidLobbyName
    );
    assert_eq!(
        e.create(creator(), "has space".to_string(), STAKE, 0).unwrap_err(),
        GameError::InvalidLobbyName
    );
    assert_eq!(
        e.create(creator(), "punct!".to_string(), STAKE, 0).unwrap_err(),
        GameError::InvalidLobbyName
    );
    // twenty characters, digits and letters, is fine.
    e.create(creator(), "a".repeat(20), STAKE, 0).unwrap();
    e.create(creator(), "abc123XYZ".to_string(), STAKE, 0).unwrap();
}
