//! Unit tests for the fee split, the coin mix, label validation and the
//! record-level transitions.
use battleflip::errors::GameError;
use battleflip::fees::settlement_split;
use battleflip::label::check_lobby_name;
use battleflip::outcome::compute_flip;
use battleflip::state::CoinSide;
use battleflip::state::Game;
use battleflip::state::GameStatus;
use battleflip::state::Identity;
use battleflip::state::Platform;
use battleflip::transitions::claim_winnings;
use battleflip::transitions::create_game;
use battleflip::transitions::delete_game;
use battleflip::transitions::flip_coin;
use battleflip::transitions::initialize_platform;
use battleflip::transitions::join_game;

fn finished_game(escrowed: u64, winner: Identity) -> Game {
    Game {
        creator: Identity { value: 3 },
        lobby_name: "lobby1".to_string(),
        bet_amount: escrowed / 2,
        created_at: 0,
        status: GameStatus::Finished,
        player: Some(winner),
        winner: Some(winner),
        result: Some(CoinSide::Heads),
        player_choice: Some(CoinSide::Heads),
        escrowed_amount: escrowed,
    }
}

#[test]
fn fee_split_exact_values() {
    // 2.5% of 6_000_000 is exactly 150_000.
    assert_eq!(settlement_split(6_000_000, 25), (5_850_000, 150_000));
    // the remainder of the division stays with the winner.
    assert_eq!(settlement_split(999, 25), (975, 24));
    // a fee too small to round to one lamport is zero; nothing is lost.
    assert_eq!(settlement_split(7, 25), (7, 0));
    // the whole range of rates keeps the sum exact.
    assert_eq!(settlement_split(u64::MAX, 1000), (0, u64::MAX));
    assert_eq!(settlement_split(u64::MAX, 0), (u64::MAX, 0));
}

#[test]
fn fee_split_never_creates_dust() {
    for pot in [0u64, 1, 2, 999, 1_000, 1_001, 6_000_000, u64::MAX] {
        for bps in [0u64, 1, 25, 999, 1_000] {
            let (payout, fee) = settlement_split(pot, bps);
            assert_eq!(payout + fee, pot);
        }
    }
}

#[test]
fn coin_mix_is_the_parity_of_the_inputs() {
    // timestamp * slot + secret: even means Heads, odd means Tails.
    assert_eq!(compute_flip(0, 77, 0), CoinSide::Heads);
    assert_eq!(compute_flip(3, 5, 2), CoinSide::Tails);
    assert_eq!(compute_flip(3, 5, 1), CoinSide::Heads);
    assert_eq!(compute_flip(2, 2, 1), CoinSide::Tails);
    // negative timestamps keep their parity.
    assert_eq!(compute_flip(-3, 5, 0), CoinSide::Tails);
    assert_eq!(compute_flip(-4, 5, 0), CoinSide::Heads);
}

#[test]
fn identity_low_byte() {
    assert_eq!(Identity { value: 0x1234 }.low_byte(), 0x34);
    assert_eq!(Identity { value: 256 }.low_byte(), 0);
    assert_eq!(Identity { value: u64::MAX }.low_byte(), 0xFF);
}

#[test]
fn lobby_name_check() {
    assert!(check_lobby_name("a"));
    assert!(check_lobby_name("abc123XYZ"));
    // Unicode letters and digits count as alphanumeric.
    assert!(check_lobby_name("caf\u{e9}"));
    assert!(!check_lobby_name(""));
    assert!(!check_lobby_name("two words"));
    assert!(!check_lobby_name("dash-ed"));
    // twenty characters pass, twenty-one do not.
    assert!(check_lobby_name(&"x".repeat(20)));
    assert!(!check_lobby_name(&"x".repeat(21)));
}

#[test]
fn platform_initialization_zeroes_counters() {
    let p = initialize_platform(Identity { value: 9 }, Identity { value: 8 });
    assert_eq!(p.authority, Identity { value: 9 });
    assert_eq!(p.fee_wallet, Identity { value: 8 });
    assert_eq!(p.total_games, 0);
    assert_eq!(p.total_volume, 0);
    assert_eq!(p.active_games, 0);
}

#[test]
fn record_level_full_round() {
    let mut p = initialize_platform(Identity { value: 1 }, Identity { value: 2 });
    let creator = Identity { value: 3 };
    let opponent = Identity { value: 512 };

    let mut g = create_game(&mut p, creator, "round1".to_string(), 4_000_000, 100).unwrap();
    assert_eq!(g.escrowed_amount, 4_000_000);
    assert_eq!(p.total_games, 1);
    assert_eq!(p.active_games, 1);

    join_game(&mut g, opponent, 200).unwrap();
    assert_eq!(g.escrowed_amount, 8_000_000);
    assert_eq!(g.status, GameStatus::InProgress);

    // opponent byte 0 and even timestamp force Heads.
    flip_coin(&mut p, &mut g, opponent, CoinSide::Heads, 0, 9).unwrap();
    assert_eq!(g.status, GameStatus::Finished);
    assert_eq!(g.result, Some(CoinSide::Heads));
    assert_eq!(g.player_choice, Some(CoinSide::Heads));
    assert_eq!(g.winner, Some(opponent));
    assert_eq!(p.total_volume, 8_000_000);
    assert_eq!(p.active_games, 0);

    let s = claim_winnings(&g, opponent).unwrap();
    assert_eq!(s.winner_amount + s.platform_fee, 8_000_000);
    assert_eq!(s.platform_fee, 200_000);
}

#[test]
fn record_level_error_paths() {
    let mut p = initialize_platform(Identity { value: 1 }, Identity { value: 2 });
    let creator = Identity { value: 3 };
    let opponent = Identity { value: 4 };

    let mut g = create_game(&mut p, creator, "lobby1".to_string(), 3_000_000, 0).unwrap();
    assert_eq!(
        flip_coin(&mut p, &mut g, opponent, CoinSide::Heads, 0, 1).unwrap_err(),
        GameError::GameNotInProgress
    );
    assert_eq!(claim_winnings(&g, creator).unwrap_err(), GameError::GameNotFinished);
    assert_eq!(delete_game(&mut p, &g, opponent).unwrap_err(), GameError::NotCreator);

    join_game(&mut g, opponent, 1).unwrap();
    assert_eq!(join_game(&mut g, opponent, 2).unwrap_err(), GameError::GameNotActive);
    assert_eq!(delete_game(&mut p, &g, creator).unwrap_err(), GameError::GameNotActive);
    assert_eq!(
        flip_coin(&mut p, &mut g, creator, CoinSide::Heads, 0, 1).unwrap_err(),
        GameError::NotPlayer
    );
}

#[test]
fn odd_pot_remainder_goes_to_the_winner() {
    // an escrow that does not divide evenly: 2.5% of 6_000_001 rounds down.
    let winner = Identity { value: 5 };
    let g = finished_game(6_000_001, winner);
    let s = claim_winnings(&g, winner).unwrap();
    assert_eq!(s.platform_fee, 150_000);
    assert_eq!(s.winner_amount, 5_850_001);
    assert_eq!(s.winner_amount + s.platform_fee, 6_000_001);
}

#[test]
fn cancellation_refund_is_clamped_to_the_stake() {
    let mut p = Platform {
        authority: Identity { value: 1 },
        fee_wallet: Identity { value: 2 },
        total_games: 1,
        total_volume: 0,
        active_games: 1,
    };
    let creator = Identity { value: 3 };
    // stray dust above the stake is not refunded: the clamp is the
    // documented tolerance.
    let g = Game {
        creator,
        lobby_name: "lobby1".to_string(),
        bet_amount: 3_000_000,
        created_at: 0,
        status: GameStatus::Active,
        player: None,
        winner: None,
        result: None,
        player_choice: None,
        escrowed_amount: 3_000_123,
    };
    assert_eq!(delete_game(&mut p, &g, creator).unwrap(), 3_000_000);
    assert_eq!(p.active_games, 0);
}
