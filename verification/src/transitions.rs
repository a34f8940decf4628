//! The five wager transitions and platform initialization, each as a function
//! on the two records plus a specification twin that pins the whole outcome
//! down: which error comes on which input, and the exact new state otherwise.
//!
//! Fund custody stays with the caller of the library: a transition that moves
//! money returns the amounts to move (a claim's payout and fee, a
//! cancellation's refund), and every amount it returns drains the wager's
//! escrow exactly — all transfers of one transition together, or none.
use vstd::prelude::*;

use crate::errors::GameError;
use crate::fees::fee_amount;
use crate::fees::settlement_split;
use crate::label::check_lobby_name;
use crate::label::valid_lobby_name;
use crate::outcome::compute_flip;
use crate::outcome::flip_result;
use crate::state::CoinSide;
use crate::state::Game;
use crate::state::GameStatus;
use crate::state::Identity;
use crate::state::Platform;
use crate::LOBBY_EXPIRY_TIME;
use crate::MINIMUM_BET_LAMPORTS;
use crate::PLATFORM_FEE_PERCENTAGE;

verus! {

/// What a successful claim pays out: the full escrowed pot, split between
/// the winner and the platform's fee wallet.
#[derive(Clone, Copy, Debug, PartialEq, Eq, Structural)]
pub struct Settlement {
    /// The identity to pay `winner_amount` to.
    pub winner: Identity,
    /// The pot minus the platform fee; the division remainder stays here.
    pub winner_amount: u64,
    /// The platform's cut, owed to the ledger's fee wallet.
    pub platform_fee: u64,
}

/// The ledger as the authority initializes it: counters at zero.
pub open spec fn spec_initialize_platform(authority: Identity, fee_wallet: Identity) -> Platform {
    Platform { authority, fee_wallet, total_games: 0, total_volume: 0, active_games: 0 }
}

/// Initialize the platform ledger. Done once by the authority; every wager
/// afterwards reads the fee wallet from it and updates its counters.
pub fn initialize_platform(authority: Identity, fee_wallet: Identity) -> (platform: Platform)
    ensures
        platform == spec_initialize_platform(authority, fee_wallet),
{
    Platform { authority, fee_wallet, total_games: 0, total_volume: 0, active_games: 0 }
}

/// Creation: validate the lobby name and the stake, escrow the creator's
/// stake, and count the new wager in the ledger.
pub open spec fn spec_create_game(
    platform: Platform,
    creator: Identity,
    lobby_name: String,
    bet_amount: u64,
    now: i64,
) -> (Platform, Result<Game, GameError>) {
    if !valid_lobby_name(lobby_name@) {
        (platform, Err(GameError::InvalidLobbyName))
    } else if bet_amount < MINIMUM_BET_LAMPORTS {
        (platform, Err(GameError::BetTooLow))
    } else {
        (
            Platform {
                total_games: (platform.total_games + 1) as u64,
                active_games: (platform.active_games + 1) as u64,
                ..platform
            },
            Ok(
                Game {
                    creator,
                    lobby_name,
                    bet_amount,
                    created_at: now,
                    status: GameStatus::Active,
                    player: None,
                    winner: None,
                    result: None,
                    player_choice: None,
                    escrowed_amount: bet_amount,
                },
            ),
        )
    }
}

/// Open a wager: the creator stakes `bet_amount` under `lobby_name`.
///
/// Validation failures are rejected before any state is touched. On success
/// the creator's full stake is escrowed (the fee is taken only at
/// settlement), and the ledger counts one more game, one more active game.
///
/// The counter bounds and the stake cap are machine limits: the ledger's
/// counters and the matched escrow of `2 * bet_amount` must fit in a `u64`.
pub fn create_game(
    platform: &mut Platform,
    creator: Identity,
    lobby_name: String,
    bet_amount: u64,
    now: i64,
) -> (r: Result<Game, GameError>)
    requires
        old(platform).total_games < u64::MAX,
        old(platform).active_games < u64::MAX,
        bet_amount <= u64::MAX / 2,
    ensures
        (*final(platform), r) == spec_create_game(
            *old(platform),
            creator,
            lobby_name,
            bet_amount,
            now,
        ),
        r is Ok <==> valid_lobby_name(lobby_name@) && bet_amount >= MINIMUM_BET_LAMPORTS,
        !valid_lobby_name(lobby_name@) ==> r == Result::<Game, GameError>::Err(
            GameError::InvalidLobbyName,
        ),
        valid_lobby_name(lobby_name@) && bet_amount < MINIMUM_BET_LAMPORTS ==> r
            == Result::<Game, GameError>::Err(GameError::BetTooLow),
        r is Err ==> *final(platform) == *old(platform),
        r is Ok ==> r->Ok_0.wf() && r->Ok_0.status is Active && r->Ok_0.creator == creator
            && r->Ok_0.bet_amount == bet_amount && r->Ok_0.escrowed_amount == bet_amount
            && r->Ok_0.created_at == now && r->Ok_0.lobby_name == lobby_name,
        r is Ok ==> final(platform).total_games == old(platform).total_games + 1
            && final(platform).active_games == old(platform).active_games + 1
            && final(platform).total_volume == old(platform).total_volume
            && final(platform).authority == old(platform).authority
            && final(platform).fee_wallet == old(platform).fee_wallet,
{
    if !check_lobby_name(lobby_name.as_str()) {
        return Err(GameError::InvalidLobbyName);
    }
    if bet_amount < MINIMUM_BET_LAMPORTS {
        return Err(GameError::BetTooLow);
    }
    platform.total_games = platform.total_games + 1;
    platform.active_games = platform.active_games + 1;
    Ok(
        Game {
            creator,
            lobby_name,
            bet_amount,
            created_at: now,
            status: GameStatus::Active,
            player: None,
            winner: None,
            result: None,
            player_choice: None,
            escrowed_amount: bet_amount,
        },
    )
}

/// Whether the join window has closed: a wager created at `created_at` is
/// joinable strictly before `created_at + LOBBY_EXPIRY_TIME`.
pub open spec fn spec_expired(created_at: i64, now: i64) -> bool {
    now - created_at >= LOBBY_EXPIRY_TIME
}

/// Joining: only an open, unexpired wager; the opponent's matching stake
/// joins the escrow and the wager becomes matched.
pub open spec fn spec_join_game(game: Game, player: Identity, now: i64) -> (
    Game,
    Result<(), GameError>,
) {
    if !(game.status is Active) {
        (game, Err(GameError::GameNotActive))
    } else if spec_expired(game.created_at, now) {
        (game, Err(GameError::GameExpired))
    } else {
        (
            Game {
                status: GameStatus::InProgress,
                player: Some(player),
                escrowed_amount: (game.escrowed_amount + game.bet_amount) as u64,
                ..game
            },
            Ok(()),
        )
    }
}

/// Join an open wager as the opponent, staking the same amount the creator
/// did. Expiry is advisory and time-based: at exactly `created_at +
/// LOBBY_EXPIRY_TIME` the wager is no longer joinable and can only be
/// cancelled by its creator.
pub fn join_game(game: &mut Game, player: Identity, now: i64) -> (r: Result<(), GameError>)
    requires
        old(game).wf(),
    ensures
        (*final(game), r) == spec_join_game(*old(game), player, now),
        final(game).wf(),
        r is Ok <==> old(game).status is Active && !spec_expired(old(game).created_at, now),
        !(old(game).status is Active) ==> r == Result::<(), GameError>::Err(
            GameError::GameNotActive,
        ),
        old(game).status is Active && spec_expired(old(game).created_at, now) ==> r
            == Result::<(), GameError>::Err(GameError::GameExpired),
        r is Err ==> *final(game) == *old(game),
        r is Ok ==> final(game).status is InProgress && final(game).player == Some(player)
            && final(game).escrowed_amount == 2 * old(game).bet_amount,
{
    match game.status {
        GameStatus::Active => {},
        _ => { return Err(GameError::GameNotActive) },
    }
    if (now as i128) - (game.created_at as i128) >= (LOBBY_EXPIRY_TIME as i128) {
        return Err(GameError::GameExpired);
    }
    game.status = GameStatus::InProgress;
    game.player = Some(player);
    game.escrowed_amount = game.escrowed_amount + game.bet_amount;
    Ok(())
}

/// Resolution: only the opponent of a matched wager may resolve. The coin is
/// the mix of the timestamp, the slot and the opponent's identity byte; the
/// opponent wins exactly when the coin lands on their prediction. Both
/// stakes count into the platform's volume now, and the wager stops being
/// active.
pub open spec fn spec_flip_coin(
    platform: Platform,
    game: Game,
    caller: Identity,
    player_choice: CoinSide,
    now: i64,
    slot: u64,
) -> (Platform, Game, Result<(), GameError>) {
    if !(game.status is InProgress) {
        (platform, game, Err(GameError::GameNotInProgress))
    } else if game.player != Some(caller) {
        (platform, game, Err(GameError::NotPlayer))
    } else {
        let side = flip_result(now, slot, caller.spec_low_byte());
        let winner = if side == player_choice {
            caller
        } else {
            game.creator
        };
        (
            Platform {
                total_volume: (platform.total_volume + 2 * game.bet_amount) as u64,
                active_games: (platform.active_games - 1) as u64,
                ..platform
            },
            Game {
                status: GameStatus::Finished,
                result: Some(side),
                player_choice: Some(player_choice),
                winner: Some(winner),
                ..game
            },
            Ok(()),
        )
    }
}

/// Resolve a matched wager: flip the coin and record outcome, prediction and
/// winner.
///
/// The ledger bounds are machine limits: resolving needs one active game to
/// subtract and room in `total_volume` for both stakes; the library's engine
/// maintains both.
pub fn flip_coin(
    platform: &mut Platform,
    game: &mut Game,
    caller: Identity,
    player_choice: CoinSide,
    now: i64,
    slot: u64,
) -> (r: Result<(), GameError>)
    requires
        old(game).wf(),
        old(game).status is InProgress ==> old(platform).active_games >= 1 && old(
            platform,
        ).total_volume + 2 * old(game).bet_amount <= u64::MAX,
    ensures
        (*final(platform), *final(game), r) == spec_flip_coin(
            *old(platform),
            *old(game),
            caller,
            player_choice,
            now,
            slot,
        ),
        final(game).wf(),
        r is Ok <==> old(game).status is InProgress && old(game).player == Some(caller),
        !(old(game).status is InProgress) ==> r == Result::<(), GameError>::Err(
            GameError::GameNotInProgress,
        ),
        old(game).status is InProgress && old(game).player != Some(caller) ==> r == Result::<
            (),
            GameError,
        >::Err(GameError::NotPlayer),
        r is Err ==> *final(game) == *old(game) && *final(platform) == *old(platform),
        r is Ok ==> final(game).status is Finished && final(game).result == Some(
            flip_result(now, slot, caller.spec_low_byte()),
        ) && final(game).player_choice == Some(player_choice) && final(game).winner == Some(
            if flip_result(now, slot, caller.spec_low_byte()) == player_choice {
                caller
            } else {
                old(game).creator
            },
        ),
        r is Ok ==> final(platform).total_volume == old(platform).total_volume + 2 * old(
            game,
        ).bet_amount && final(platform).active_games == old(platform).active_games - 1
            && final(platform).total_games == old(platform).total_games,
{
    match game.status {
        GameStatus::InProgress => {},
        _ => { return Err(GameError::GameNotInProgress) },
    }
    let is_player = match game.player {
        Some(p) => p == caller,
        None => false,
    };
    if !is_player {
        return Err(GameError::NotPlayer);
    }
    let side = compute_flip(now, slot, caller.low_byte());
    let winner = if side == player_choice {
        caller
    } else {
        game.creator
    };
    game.status = GameStatus::Finished;
    game.result = Some(side);
    game.player_choice = Some(player_choice);
    game.winner = Some(winner);
    platform.total_volume = platform.total_volume + 2 * game.bet_amount;
    platform.active_games = platform.active_games - 1;
    Ok(())
}

/// Settlement: only the recorded winner of a resolved wager may claim. The
/// pot is the full escrow; the fee is `PLATFORM_FEE_PERCENTAGE`
/// parts-per-thousand of it, and the winner takes the rest including the
/// division remainder.
pub open spec fn spec_claim_winnings(game: Game, caller: Identity) -> Result<
    Settlement,
    GameError,
> {
    if !(game.status is Finished) {
        Err(GameError::GameNotFinished)
    } else if game.winner != Some(caller) {
        Err(GameError::NotWinner)
    } else {
        let fee = fee_amount(game.escrowed_amount as int, PLATFORM_FEE_PERCENTAGE as int);
        Ok(
            Settlement {
                winner: caller,
                winner_amount: (game.escrowed_amount - fee) as u64,
                platform_fee: fee as u64,
            },
        )
    }
}

/// Decide a winner's claim. The caller of the library performs the two
/// transfers and destroys the record; the two amounts together drain the
/// escrow exactly, so no dust stays behind on a closed wager.
pub fn claim_winnings(game: &Game, caller: Identity) -> (r: Result<Settlement, GameError>)
    ensures
        r == spec_claim_winnings(*game, caller),
        r is Ok <==> game.status is Finished && game.winner == Some(caller),
        !(game.status is Finished) ==> r == Result::<Settlement, GameError>::Err(
            GameError::GameNotFinished,
        ),
        game.status is Finished && game.winner != Some(caller) ==> r == Result::<
            Settlement,
            GameError,
        >::Err(GameError::NotWinner),
        r is Ok ==> r->Ok_0.winner == caller && r->Ok_0.winner_amount + r->Ok_0.platform_fee
            == game.escrowed_amount && r->Ok_0.platform_fee == fee_amount(
            game.escrowed_amount as int,
            PLATFORM_FEE_PERCENTAGE as int,
        ),
{
    match game.status {
        GameStatus::Finished => {},
        _ => { return Err(GameError::GameNotFinished) },
    }
    let is_winner = match game.winner {
        Some(w) => w == caller,
        None => false,
    };
    if !is_winner {
        return Err(GameError::NotWinner);
    }
    let (winner_amount, platform_fee) = settlement_split(
        game.escrowed_amount,
        PLATFORM_FEE_PERCENTAGE as u64,
    );
    Ok(Settlement { winner: caller, winner_amount, platform_fee })
}

/// The refund a cancellation pays: the whole escrow, clamped to the nominal
/// stake as a documented tolerance for stray dust above it.
pub open spec fn spec_refund_amount(game: Game) -> u64 {
    if game.escrowed_amount <= game.bet_amount {
        game.escrowed_amount
    } else {
        game.bet_amount
    }
}

/// Cancellation: only the creator of a still-open wager; the refund is the
/// full stake (the settlement-time fee policy takes no fee before a match),
/// and the wager stops being active.
pub open spec fn spec_delete_game(platform: Platform, game: Game, caller: Identity) -> (
    Platform,
    Result<u64, GameError>,
) {
    if !(game.status is Active) {
        (platform, Err(GameError::GameNotActive))
    } else if game.creator != caller {
        (platform, Err(GameError::NotCreator))
    } else {
        (
            Platform { active_games: (platform.active_games - 1) as u64, ..platform },
            Ok(spec_refund_amount(game)),
        )
    }
}

/// Cancel an open wager. A matched or resolved wager can never be cancelled:
/// an opponent's stake, once matched, is settled only through resolution and
/// claim. The caller of the library pays the returned refund to the creator
/// and destroys the record.
pub fn delete_game(platform: &mut Platform, game: &Game, caller: Identity) -> (r: Result<
    u64,
    GameError,
>)
    requires
        game.status is Active ==> old(platform).active_games >= 1,
    ensures
        (*final(platform), r) == spec_delete_game(*old(platform), *game, caller),
        r is Ok <==> game.status is Active && game.creator == caller,
        !(game.status is Active) ==> r == Result::<u64, GameError>::Err(GameError::GameNotActive),
        game.status is Active && game.creator != caller ==> r == Result::<u64, GameError>::Err(
            GameError::NotCreator,
        ),
        r is Err ==> *final(platform) == *old(platform),
        r is Ok ==> final(platform).active_games == old(platform).active_games - 1
            && final(platform).total_games == old(platform).total_games
            && final(platform).total_volume == old(platform).total_volume,
        game.wf() && r is Ok ==> r->Ok_0 == game.escrowed_amount && r->Ok_0 == game.bet_amount,
{
    match game.status {
        GameStatus::Active => {},
        _ => { return Err(GameError::GameNotActive) },
    }
    if !(game.creator == caller) {
        return Err(GameError::NotCreator);
    }
    let refund: u64 = if game.escrowed_amount <= game.bet_amount {
        game.escrowed_amount
    } else {
        game.bet_amount
    };
    platform.active_games = platform.active_games - 1;
    Ok(refund)
}

} // verus!
