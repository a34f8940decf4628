//! Laws of the escrow state machine: properties that relate several
//! transitions or whole runs, stated over the specification twins and proved
//! once for all inputs.
use vstd::prelude::*;

use crate::engine::engine_wf;
use crate::engine::lemma_count_live_bounds;
use crate::engine::lemma_count_live_pos;
use crate::engine::lemma_count_live_push;
use crate::engine::lemma_count_live_update;
use crate::engine::step_cancel;
use crate::engine::step_claim;
use crate::engine::step_create;
use crate::engine::step_join;
use crate::engine::step_resolve;
use crate::errors::GameError;
use crate::fees::lemma_fee_bounds;
use crate::label::valid_lobby_name;
use crate::outcome::flip_result;
use crate::state::CoinSide;
use crate::state::Game;
use crate::state::Identity;
use crate::state::Platform;
use crate::transitions::spec_claim_winnings;
use crate::transitions::spec_create_game;
use crate::transitions::spec_delete_game;
use crate::transitions::spec_flip_coin;
use crate::transitions::spec_join_game;
use crate::transitions::Settlement;
use crate::LOBBY_EXPIRY_TIME;
use crate::MINIMUM_BET_LAMPORTS;
use crate::PLATFORM_FEE_PERCENTAGE;

verus! {

/// Law: the escrow after a creation and a join holds both stakes exactly.
/// Under the settlement-time fee policy nothing is deducted on the way in,
/// so the deposit-side fee is zero and `fee_taken + escrowed_amount ==
/// 2 * bet_amount` holds with no dust created or lost.
pub proof fn lemma_escrow_after_create_and_join(
    platform: Platform,
    creator: Identity,
    player: Identity,
    lobby_name: String,
    bet_amount: u64,
    created: i64,
    joined: i64,
)
    requires
        bet_amount <= u64::MAX / 2,
    ensures
        ({
            let (p2, created_res) = spec_create_game(
                platform,
                creator,
                lobby_name,
                bet_amount,
                created,
            );
            created_res is Ok ==> created_res->Ok_0.escrowed_amount == bet_amount && {
                let (g2, join_res) = spec_join_game(created_res->Ok_0, player, joined);
                join_res is Ok ==> g2.escrowed_amount == 2 * bet_amount
            }
        }),
{
}

/// Law: a claim is satisfied at most once. A successful claim destroys the
/// record, so a second claim of the same wager — by anyone — fails with
/// `GameNotFinished`.
pub proof fn lemma_claim_only_once(
    platform: Platform,
    games: Seq<Option<Game>>,
    id: u64,
    caller: Identity,
    second_caller: Identity,
)
    ensures
        ({
            let (p2, games2, r) = step_claim(platform, games, id, caller);
            r is Ok ==> step_claim(p2, games2, id, second_caller).2 == Err::<
                Settlement,
                GameError,
            >(GameError::GameNotFinished)
        }),
{
}

/// Law: cancellation after a join always fails with `GameNotActive`,
/// whoever calls: a matched wager's stakes can only be settled through
/// resolution and claim, never withdrawn unilaterally.
pub proof fn lemma_no_cancel_after_join(
    platform: Platform,
    game: Game,
    player: Identity,
    now: i64,
    anyone: Identity,
)
    ensures
        ({
            let (g2, r) = spec_join_game(game, player, now);
            r is Ok ==> spec_delete_game(platform, g2, anyone).1 == Err::<u64, GameError>(
                GameError::GameNotActive,
            )
        }),
{
}

/// Law: resolution sets the winner by the prediction, for both coin values:
/// the opponent wins exactly when the coin equals their prediction, and the
/// creator wins otherwise.
pub proof fn lemma_winner_follows_prediction(
    platform: Platform,
    game: Game,
    caller: Identity,
    player_choice: CoinSide,
    now: i64,
    slot: u64,
)
    ensures
        ({
            let (p2, g2, r) = spec_flip_coin(platform, game, caller, player_choice, now, slot);
            r is Ok ==> {
                let side = flip_result(now, slot, caller.spec_low_byte());
                &&& g2.result == Some(side)
                &&& game.player == Some(caller)
                &&& side == player_choice ==> g2.winner == game.player
                &&& side != player_choice ==> g2.winner == Some(game.creator)
            }
        }),
{
}

/// Law: escrow conservation at the terminal transitions. What a claim pays
/// out — winner payout plus platform fee — equals exactly what both
/// participants paid in, and what a cancellation refunds equals exactly the
/// single stake paid in. No dust remains attributable to a closed wager.
pub proof fn lemma_escrow_conservation(platform: Platform, game: Game, caller: Identity)
    requires
        game.wf(),
    ensures
        ({
            let r = spec_claim_winnings(game, caller);
            r is Ok ==> r->Ok_0.winner_amount + r->Ok_0.platform_fee == 2 * game.bet_amount
        }),
        ({
            let (p2, r) = spec_delete_game(platform, game, caller);
            r is Ok ==> r->Ok_0 == game.bet_amount
        }),
{
    if game.status is Finished {
        lemma_fee_bounds(game.escrowed_amount as int, PLATFORM_FEE_PERCENTAGE as int);
    }
}

/// Law: the minimum stake is a sharp boundary. With any valid lobby name,
/// one lamport below the minimum always fails with `BetTooLow`, and exactly
/// the minimum always succeeds.
pub proof fn lemma_minimum_stake_boundary(
    platform: Platform,
    creator: Identity,
    lobby_name: String,
    now: i64,
)
    ensures
        valid_lobby_name(lobby_name@) ==> spec_create_game(
            platform,
            creator,
            lobby_name,
            (MINIMUM_BET_LAMPORTS - 1) as u64,
            now,
        ).1 == Err::<Game, GameError>(GameError::BetTooLow),
        valid_lobby_name(lobby_name@) ==> spec_create_game(
            platform,
            creator,
            lobby_name,
            MINIMUM_BET_LAMPORTS,
            now,
        ).1 is Ok,
{
}

/// Law: the join window is sharp. An open wager is joinable at the last
/// instant before `created_at + LOBBY_EXPIRY_TIME` and expired exactly at
/// it. The bound on `created_at` is a machine limit: both instants must
/// exist as timestamps.
pub proof fn lemma_expiry_boundary(game: Game, player: Identity)
    requires
        game.created_at + LOBBY_EXPIRY_TIME <= i64::MAX,
    ensures
        game.status is Active ==> spec_join_game(
            game,
            player,
            (game.created_at + LOBBY_EXPIRY_TIME - 1) as i64,
        ).1 is Ok,
        game.status is Active ==> spec_join_game(
            game,
            player,
            (game.created_at + LOBBY_EXPIRY_TIME) as i64,
        ).1 == Err::<(), GameError>(GameError::GameExpired),
{
}

/// One engine operation with its inputs, for stating laws over whole runs.
pub enum EngineOp {
    Create { creator: Identity, lobby_name: String, bet_amount: u64, now: i64 },
    Join { id: u64, player: Identity, now: i64 },
    Resolve { id: u64, caller: Identity, player_choice: CoinSide, now: i64, slot: u64 },
    Claim { id: u64, caller: Identity },
    Cancel { id: u64, caller: Identity },
}

/// The engine state an operation leads to, whether it succeeds or errors.
pub open spec fn apply_op(platform: Platform, games: Seq<Option<Game>>, op: EngineOp) -> (
    Platform,
    Seq<Option<Game>>,
) {
    match op {
        EngineOp::Create { creator, lobby_name, bet_amount, now } => {
            let (p2, g2, r) = step_create(platform, games, creator, lobby_name, bet_amount, now);
            (p2, g2)
        },
        EngineOp::Join { id, player, now } => {
            let (p2, g2, r) = step_join(platform, games, id, player, now);
            (p2, g2)
        },
        EngineOp::Resolve { id, caller, player_choice, now, slot } => {
            let (p2, g2, r) = step_resolve(platform, games, id, caller, player_choice, now, slot);
            (p2, g2)
        },
        EngineOp::Claim { id, caller } => {
            let (p2, g2, r) = step_claim(platform, games, id, caller);
            (p2, g2)
        },
        EngineOp::Cancel { id, caller } => {
            let (p2, g2, r) = step_cancel(platform, games, id, caller);
            (p2, g2)
        },
    }
}

/// Whether an operation goes through rather than returning an error.
pub open spec fn op_succeeds(platform: Platform, games: Seq<Option<Game>>, op: EngineOp) -> bool {
    match op {
        EngineOp::Create { creator, lobby_name, bet_amount, now } => step_create(
            platform,
            games,
            creator,
            lobby_name,
            bet_amount,
            now,
        ).2 is Ok,
        EngineOp::Join { id, player, now } => step_join(platform, games, id, player, now).2 is Ok,
        EngineOp::Resolve { id, caller, player_choice, now, slot } => step_resolve(
            platform,
            games,
            id,
            caller,
            player_choice,
            now,
            slot,
        ).2 is Ok,
        EngineOp::Claim { id, caller } => step_claim(platform, games, id, caller).2 is Ok,
        EngineOp::Cancel { id, caller } => step_cancel(platform, games, id, caller).2 is Ok,
    }
}

/// The change one operation makes to the number of active wagers: plus one
/// for a successful creation, minus one for a successful resolution or
/// cancellation, nothing otherwise. Joins and claims never change it.
pub open spec fn op_delta(platform: Platform, games: Seq<Option<Game>>, op: EngineOp) -> int {
    if !op_succeeds(platform, games, op) {
        0
    } else {
        match op {
            EngineOp::Create { .. } => 1,
            EngineOp::Join { .. } => 0,
            EngineOp::Resolve { .. } => -1,
            EngineOp::Claim { .. } => 0,
            EngineOp::Cancel { .. } => -1,
        }
    }
}

/// The stake of the wager stored under `id`, or zero where no record exists.
pub open spec fn stake_at(games: Seq<Option<Game>>, id: u64) -> int {
    if id < games.len() && games[id as int] is Some {
        games[id as int]->0.bet_amount as int
    } else {
        0
    }
}

/// The machine limits one operation needs: room in the ledger counters for
/// a creation, room in `total_volume` for a resolution.
pub open spec fn op_admissible(platform: Platform, games: Seq<Option<Game>>, op: EngineOp) -> bool {
    match op {
        EngineOp::Create { bet_amount, .. } => platform.total_games < u64::MAX && bet_amount
            <= u64::MAX / 2,
        EngineOp::Resolve { id, .. } => platform.total_volume + 2 * stake_at(games, id)
            <= u64::MAX,
        _ => true,
    }
}

/// A run of operations applied left to right.
pub open spec fn apply_ops(
    platform: Platform,
    games: Seq<Option<Game>>,
    ops: Seq<EngineOp>,
) -> (Platform, Seq<Option<Game>>)
    decreases ops.len(),
{
    if ops.len() == 0 {
        (platform, games)
    } else {
        let (p2, g2) = apply_op(platform, games, ops[0]);
        apply_ops(p2, g2, ops.drop_first())
    }
}

/// The net change of the active-games counter over a run: one per
/// successful creation, minus one per successful resolution or
/// cancellation.
pub open spec fn net_delta(platform: Platform, games: Seq<Option<Game>>, ops: Seq<EngineOp>) -> int
    decreases ops.len(),
{
    if ops.len() == 0 {
        0
    } else {
        let (p2, g2) = apply_op(platform, games, ops[0]);
        op_delta(platform, games, ops[0]) + net_delta(p2, g2, ops.drop_first())
    }
}

/// Whether every operation of a run keeps within the machine limits.
pub open spec fn run_admissible(
    platform: Platform,
    games: Seq<Option<Game>>,
    ops: Seq<EngineOp>,
) -> bool
    decreases ops.len(),
{
    if ops.len() == 0 {
        true
    } else {
        let (p2, g2) = apply_op(platform, games, ops[0]);
        op_admissible(platform, games, ops[0]) && run_admissible(p2, g2, ops.drop_first())
    }
}

/// One operation preserves the engine invariant, moves `active_games` by
/// exactly its delta, and never lowers `total_volume` or `total_games`.
pub proof fn lemma_step_preserves_wf(platform: Platform, games: Seq<Option<Game>>, op: EngineOp)
    requires
        engine_wf(platform, games),
        op_admissible(platform, games, op),
    ensures
        ({
            let (p2, g2) = apply_op(platform, games, op);
            &&& engine_wf(p2, g2)
            &&& p2.active_games == platform.active_games + op_delta(platform, games, op)
            &&& p2.total_volume >= platform.total_volume
            &&& p2.total_games >= platform.total_games
        }),
{
    match op {
        EngineOp::Create { creator, lobby_name, bet_amount, now } => {
            let (p2, res) = spec_create_game(platform, creator, lobby_name, bet_amount, now);
            if res is Ok {
                lemma_count_live_bounds(games);
                lemma_count_live_push(games, Some(res->Ok_0));
            }
        },
        EngineOp::Join { id, player, now } => {
            if id < games.len() && games[id as int] is Some {
                let (g2, r) = spec_join_game(games[id as int]->0, player, now);
                if r is Ok {
                    lemma_count_live_update(games, id as int, Some(g2));
                }
            }
        },
        EngineOp::Resolve { id, caller, player_choice, now, slot } => {
            if id < games.len() && games[id as int] is Some {
                let (p2, g2, r) = spec_flip_coin(
                    platform,
                    games[id as int]->0,
                    caller,
                    player_choice,
                    now,
                    slot,
                );
                if r is Ok {
                    lemma_count_live_pos(games, id as int);
                    lemma_count_live_update(games, id as int, Some(g2));
                }
            }
        },
        EngineOp::Claim { id, caller } => {
            if id < games.len() && games[id as int] is Some {
                if spec_claim_winnings(games[id as int]->0, caller) is Ok {
                    lemma_count_live_update(games, id as int, None);
                }
            }
        },
        EngineOp::Cancel { id, caller } => {
            if id < games.len() && games[id as int] is Some {
                let (p2, r) = spec_delete_game(platform, games[id as int]->0, caller);
                if r is Ok {
                    lemma_count_live_pos(games, id as int);
                    lemma_count_live_update(games, id as int, None);
                }
            }
        },
    }
}

/// Law: over any admissible run of operations, in any order, the engine
/// invariant holds at the end, `active_games` lands at its start plus one
/// per successful creation minus one per successful resolution or
/// cancellation — independent of completion order — and `total_volume`
/// never decreases.
pub proof fn lemma_active_games_tracks_run(
    platform: Platform,
    games: Seq<Option<Game>>,
    ops: Seq<EngineOp>,
)
    requires
        engine_wf(platform, games),
        run_admissible(platform, games, ops),
    ensures
        ({
            let (p2, g2) = apply_ops(platform, games, ops);
            &&& engine_wf(p2, g2)
            &&& p2.active_games == platform.active_games + net_delta(platform, games, ops)
            &&& p2.total_volume >= platform.total_volume
        }),
    decreases ops.len(),
{
    if ops.len() > 0 {
        lemma_step_preserves_wf(platform, games, ops[0]);
        let (p2, g2) = apply_op(platform, games, ops[0]);
        lemma_active_games_tracks_run(p2, g2, ops.drop_first());
    }
}

} // verus!
