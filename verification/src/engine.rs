//! The wager engine: the platform ledger plus an arena of wager records,
//! indexed by wager id. Each wager is independent; the ledger's aggregate
//! counters are the only shared state, and the engine's invariant ties them
//! to the arena: `active_games` always equals the number of stored wagers
//! that are not yet resolved or cancelled.
//!
//! Ids are assigned from `total_games` at creation, so every wager ever
//! created has a distinct id. A terminal transition (claim or cancellation)
//! erases the slot; a later transition on the same id fails with the same
//! error as on a wager in the wrong state.
use vstd::prelude::*;

use crate::errors::GameError;
use crate::state::CoinSide;
use crate::state::Game;
use crate::state::Identity;
use crate::state::Platform;
use crate::transitions::initialize_platform;
use crate::transitions::spec_claim_winnings;
use crate::transitions::spec_create_game;
use crate::transitions::spec_delete_game;
use crate::transitions::spec_flip_coin;
use crate::transitions::spec_initialize_platform;
use crate::transitions::spec_join_game;
use crate::transitions::Settlement;
use crate::transitions;

verus! {

/// Whether a slot holds a wager that counts as active: created and not yet
/// resolved or cancelled.
pub open spec fn live(slot: Option<Game>) -> bool {
    slot is Some && !(slot->0.status is Finished)
}

/// How many slots hold active wagers.
pub open spec fn count_live(games: Seq<Option<Game>>) -> int
    decreases games.len(),
{
    if games.len() == 0 {
        0
    } else {
        count_live(games.drop_last()) + (
        if live(games.last()) {
            1int
        } else {
            0int
        })
    }
}

pub(crate) proof fn lemma_count_live_bounds(games: Seq<Option<Game>>)
    ensures
        0 <= count_live(games) <= games.len(),
    decreases games.len(),
{
    if games.len() > 0 {
        lemma_count_live_bounds(games.drop_last());
    }
}

pub(crate) proof fn lemma_count_live_push(games: Seq<Option<Game>>, slot: Option<Game>)
    ensures
        count_live(games.push(slot)) == count_live(games) + (
        if live(slot) {
            1int
        } else {
            0int
        }),
{
    assert(games.push(slot).drop_last() =~= games);
    assert(games.push(slot).last() == slot);
}

pub(crate) proof fn lemma_count_live_update(games: Seq<Option<Game>>, i: int, slot: Option<Game>)
    requires
        0 <= i < games.len(),
    ensures
        count_live(games.update(i, slot)) == count_live(games) - (
        if live(games[i]) {
            1int
        } else {
            0int
        }) + (
        if live(slot) {
            1int
        } else {
            0int
        }),
    decreases games.len(),
{
    let upd = games.update(i, slot);
    if i == games.len() - 1 {
        assert(upd.drop_last() =~= games.drop_last());
        assert(upd.last() == slot);
    } else {
        assert(upd.drop_last() =~= games.drop_last().update(i, slot));
        assert(upd.last() == games.last());
        lemma_count_live_update(games.drop_last(), i, slot);
    }
}

pub(crate) proof fn lemma_count_live_pos(games: Seq<Option<Game>>, i: int)
    requires
        0 <= i < games.len(),
        live(games[i]),
    ensures
        count_live(games) >= 1,
    decreases games.len(),
{
    lemma_count_live_bounds(games.drop_last());
    if i < games.len() - 1 {
        lemma_count_live_pos(games.drop_last(), i);
    }
}

/// The engine's invariant: the arena has one slot per wager ever created,
/// the active-games counter equals the number of live slots, and every
/// stored record is well-formed.
pub open spec fn engine_wf(platform: Platform, games: Seq<Option<Game>>) -> bool {
    &&& games.len() == platform.total_games
    &&& platform.active_games == count_live(games)
    &&& forall|i: int|
        0 <= i < games.len() ==> ((#[trigger] games[i]) is Some ==> games[i]->0.wf())
}

/// Creation as a step of the whole engine: on success the new wager's id is
/// the value `total_games` had before.
pub open spec fn step_create(
    platform: Platform,
    games: Seq<Option<Game>>,
    creator: Identity,
    lobby_name: String,
    bet_amount: u64,
    now: i64,
) -> (Platform, Seq<Option<Game>>, Result<u64, GameError>) {
    let (p2, res) = spec_create_game(platform, creator, lobby_name, bet_amount, now);
    match res {
        Ok(g) => (p2, games.push(Some(g)), Ok(platform.total_games)),
        Err(e) => (platform, games, Err(e)),
    }
}

/// Joining as a step of the whole engine: a missing record fails like a
/// wager in the wrong state.
pub open spec fn step_join(
    platform: Platform,
    games: Seq<Option<Game>>,
    id: u64,
    player: Identity,
    now: i64,
) -> (Platform, Seq<Option<Game>>, Result<(), GameError>) {
    if id >= games.len() || games[id as int] is None {
        (platform, games, Err(GameError::GameNotActive))
    } else {
        let (g2, res) = spec_join_game(games[id as int]->0, player, now);
        match res {
            Ok(u) => (platform, games.update(id as int, Some(g2)), Ok(())),
            Err(e) => (platform, games, Err(e)),
        }
    }
}

/// Resolution as a step of the whole engine.
pub open spec fn step_resolve(
    platform: Platform,
    games: Seq<Option<Game>>,
    id: u64,
    caller: Identity,
    player_choice: CoinSide,
    now: i64,
    slot: u64,
) -> (Platform, Seq<Option<Game>>, Result<(), GameError>) {
    if id >= games.len() || games[id as int] is None {
        (platform, games, Err(GameError::GameNotInProgress))
    } else {
        let (p2, g2, res) = spec_flip_coin(
            platform,
            games[id as int]->0,
            caller,
            player_choice,
            now,
            slot,
        );
        match res {
            Ok(u) => (p2, games.update(id as int, Some(g2)), Ok(())),
            Err(e) => (platform, games, Err(e)),
        }
    }
}

/// Settlement as a step of the whole engine: a successful claim erases the
/// record, so a repeated claim of the same id fails with `GameNotFinished`.
pub open spec fn step_claim(
    platform: Platform,
    games: Seq<Option<Game>>,
    id: u64,
    caller: Identity,
) -> (Platform, Seq<Option<Game>>, Result<Settlement, GameError>) {
    if id >= games.len() || games[id as int] is None {
        (platform, games, Err(GameError::GameNotFinished))
    } else {
        match spec_claim_winnings(games[id as int]->0, caller) {
            Ok(s) => (platform, games.update(id as int, None), Ok(s)),
            Err(e) => (platform, games, Err(e)),
        }
    }
}

/// Cancellation as a step of the whole engine: a successful cancellation
/// erases the record.
pub open spec fn step_cancel(
    platform: Platform,
    games: Seq<Option<Game>>,
    id: u64,
    caller: Identity,
) -> (Platform, Seq<Option<Game>>, Result<u64, GameError>) {
    if id >= games.len() || games[id as int] is None {
        (platform, games, Err(GameError::GameNotActive))
    } else {
        let (p2, res) = spec_delete_game(platform, games[id as int]->0, caller);
        match res {
            Ok(refund) => (p2, games.update(id as int, None), Ok(refund)),
            Err(e) => (platform, games, Err(e)),
        }
    }
}

/// The platform ledger and every wager it has custody of.
pub struct Engine {
    /// The singleton ledger.
    pub platform: Platform,
    /// One slot per wager ever created, erased on terminal transitions.
    pub games: Vec<Option<Game>>,
}

impl Engine {
    /// The engine's invariant; established by `new` and preserved by every
    /// operation.
    pub open spec fn wf(self) -> bool {
        engine_wf(self.platform, self.games@)
    }

    /// The stake of the stored wager `id`, or zero where no record exists.
    pub open spec fn stake_of(self, id: u64) -> int {
        if id < self.games@.len() && self.games@[id as int] is Some {
            self.games@[id as int]->0.bet_amount as int
        } else {
            0
        }
    }

    /// Set up the platform: ledger counters at zero, no wagers.
    pub fn new(authority: Identity, fee_wallet: Identity) -> (engine: Engine)
        ensures
            engine.wf(),
            engine.platform == spec_initialize_platform(authority, fee_wallet),
            engine.games@.len() == 0,
    {
        let engine = Engine { platform: initialize_platform(authority, fee_wallet), games: Vec::new() };
        engine
    }

    /// Open a new wager; on success the returned id names it from now on.
    ///
    /// The counter bound and the stake cap are machine limits; see
    /// [`transitions::create_game`].
    pub fn create(
        &mut self,
        creator: Identity,
        lobby_name: String,
        bet_amount: u64,
        now: i64,
    ) -> (r: Result<u64, GameError>)
        requires
            old(self).wf(),
            old(self).platform.total_games < u64::MAX,
            bet_amount <= u64::MAX / 2,
        ensures
            final(self).wf(),
            (final(self).platform, final(self).games@, r) == step_create(
                old(self).platform,
                old(self).games@,
                creator,
                lobby_name,
                bet_amount,
                now,
            ),
            r is Ok ==> r->Ok_0 == old(self).platform.total_games,
            r is Err ==> *final(self) == *old(self),
    {
        proof {
            lemma_count_live_bounds(self.games@);
        }
        let id: u64 = self.platform.total_games;
        match transitions::create_game(&mut self.platform, creator, lobby_name, bet_amount, now) {
            Ok(g) => {
                self.games.push(Some(g));
                proof {
                    lemma_count_live_push(old(self).games@, self.games@.last());
                }
                Ok(id)
            },
            Err(e) => Err(e),
        }
    }

    /// Join the open wager `id` as the opponent.
    pub fn join(&mut self, id: u64, player: Identity, now: i64) -> (r: Result<(), GameError>)
        requires
            old(self).wf(),
        ensures
            final(self).wf(),
            (final(self).platform, final(self).games@, r) == step_join(
                old(self).platform,
                old(self).games@,
                id,
                player,
                now,
            ),
            r is Err ==> final(self).platform == old(self).platform && final(self).games@ == old(
                self,
            ).games@,
    {
        if id >= self.games.len() as u64 {
            return Err(GameError::GameNotActive);
        }
        let i: usize = id as usize;
        let r = match &mut self.games[i] {
            Some(g) => transitions::join_game(g, player, now),
            None => Err(GameError::GameNotActive),
        };
        proof {
            if r is Ok {
                let g2 = spec_join_game(old(self).games@[id as int]->0, player, now).0;
                lemma_count_live_update(old(self).games@, id as int, Some(g2));
            }
            assert(self.games@ =~= step_join(
                old(self).platform,
                old(self).games@,
                id,
                player,
                now,
            ).1);
        }
        r
    }

    /// Resolve the matched wager `id`: flip the coin and record the winner.
    ///
    /// The volume bound is a machine limit: both stakes must still fit into
    /// the ledger's `total_volume`.
    pub fn resolve(
        &mut self,
        id: u64,
        caller: Identity,
        player_choice: CoinSide,
        now: i64,
        slot: u64,
    ) -> (r: Result<(), GameError>)
        requires
            old(self).wf(),
            old(self).platform.total_volume + 2 * old(self).stake_of(id) <= u64::MAX,
        ensures
            final(self).wf(),
            (final(self).platform, final(self).games@, r) == step_resolve(
                old(self).platform,
                old(self).games@,
                id,
                caller,
                player_choice,
                now,
                slot,
            ),
            r is Err ==> final(self).platform == old(self).platform && final(self).games@ == old(
                self,
            ).games@,
    {
        if id >= self.games.len() as u64 {
            return Err(GameError::GameNotInProgress);
        }
        let i: usize = id as usize;
        let r = match &mut self.games[i] {
            Some(g) => {
                proof {
                    if g.status is InProgress {
                        lemma_count_live_pos(old(self).games@, id as int);
                    }
                }
                transitions::flip_coin(&mut self.platform, g, caller, player_choice, now, slot)
            },
            None => Err(GameError::GameNotInProgress),
        };
        proof {
            if r is Ok {
                let g2 = spec_flip_coin(
                    old(self).platform,
                    old(self).games@[id as int]->0,
                    caller,
                    player_choice,
                    now,
                    slot,
                ).1;
                lemma_count_live_update(old(self).games@, id as int, Some(g2));
            }
            assert(self.games@ =~= step_resolve(
                old(self).platform,
                old(self).games@,
                id,
                caller,
                player_choice,
                now,
                slot,
            ).1);
        }
        r
    }

    /// Claim the resolved wager `id` as its winner. On success the record is
    /// destroyed and the returned settlement drains its escrow exactly; the
    /// caller of the library performs the two transfers.
    pub fn claim(&mut self, id: u64, caller: Identity) -> (r: Result<Settlement, GameError>)
        requires
            old(self).wf(),
        ensures
            final(self).wf(),
            (final(self).platform, final(self).games@, r) == step_claim(
                old(self).platform,
                old(self).games@,
                id,
                caller,
            ),
            r is Err ==> *final(self) == *old(self),
            r is Ok ==> old(self).games@[id as int] is Some && r->Ok_0.winner_amount
                + r->Ok_0.platform_fee == 2 * old(self).games@[id as int]->0.bet_amount,
    {
        if id >= self.games.len() as u64 {
            return Err(GameError::GameNotFinished);
        }
        let i: usize = id as usize;
        let r = match &self.games[i] {
            Some(g) => transitions::claim_winnings(g, caller),
            None => Err(GameError::GameNotFinished),
        };
        match r {
            Ok(s) => {
                self.games[i] = None;
                proof {
                    lemma_count_live_update(old(self).games@, id as int, None);
                }
                Ok(s)
            },
            Err(e) => Err(e),
        }
    }

    /// Cancel the still-open wager `id` as its creator. On success the
    /// record is destroyed and the returned refund — the full stake under
    /// the settlement-time fee policy — drains its escrow exactly.
    pub fn cancel(&mut self, id: u64, caller: Identity) -> (r: Result<u64, GameError>)
        requires
            old(self).wf(),
        ensures
            final(self).wf(),
            (final(self).platform, final(self).games@, r) == step_cancel(
                old(self).platform,
                old(self).games@,
                id,
                caller,
            ),
            r is Err ==> *final(self) == *old(self),
            r is Ok ==> old(self).games@[id as int] is Some && r->Ok_0 == old(
                self,
            ).games@[id as int]->0.bet_amount,
    {
        if id >= self.games.len() as u64 {
            return Err(GameError::GameNotActive);
        }
        let i: usize = id as usize;
        let r = match &self.games[i] {
            Some(g) => {
                proof {
                    if g.status is Active {
                        lemma_count_live_pos(old(self).games@, id as int);
                    }
                }
                transitions::delete_game(&mut self.platform, g, caller)
            },
            None => Err(GameError::GameNotActive),
        };
        match r {
            Ok(refund) => {
                self.games[i] = None;
                proof {
                    lemma_count_live_update(old(self).games@, id as int, None);
                }
                Ok(refund)
            },
            Err(e) => Err(e),
        }
    }
}

} // verus!
