//! Session lifecycle: create, join, cancel, force-finish.
//!
//! Fund movement is the host's job: `create_game` reports that the
//! creator's stake entered the pot, `join_game` returns the amount the
//! joining player must transfer into the vault. A failing operation
//! leaves the session and the configuration unchanged.

use vstd::prelude::*;
use crate::config::ConfigurationAccount;
use crate::constants::MAX_PLAYERS;
use crate::errors::GameError;
use crate::game::{GameState, GameType};
use crate::game_account::{lemma_nibble_identity, lemma_round_nibbles, GameAccountOptimized};
use crate::keys::{contains_key, find_player, is_zero32, Pubkey};
use crate::sums::{lemma_sum_push, sum_all};

verus! {

/// The participant cap of each game kind: two for duels, the global
/// limit for lotteries.
pub open spec fn player_cap(t: GameType) -> int {
    match t {
        GameType::SimpleDuel => 2,
        GameType::MultiRound => 2,
        GameType::Lottery => MAX_PLAYERS as int,
    }
}

/// The round bound a new session starts with: one round for duels and
/// lotteries, the configured bound for multi-round games.
pub open spec fn initial_max_rounds(t: GameType, config: ConfigurationAccount) -> u8 {
    match t {
        GameType::SimpleDuel => 1,
        GameType::MultiRound => config.max_rounds,
        GameType::Lottery => 1,
    }
}

/// Creates a session in `Waiting` with the creator as sole
/// participant and the creator's stake as the whole pot. The host
/// must move `stake_amount` from the creator into the session vault.
/// Increments the global game counter exactly once.
pub fn create_game(
    config: &mut ConfigurationAccount,
    creator: Pubkey,
    game_type: GameType,
    stake_amount: u64,
    now: u32,
) -> (r: Result<GameAccountOptimized, GameError>)
    requires
        old(config).wf(),
        old(config).game_counter < u64::MAX,
    ensures
        final(config).wf(),
        match r {
            Ok(game) => {
                &&& old(config).min_stake <= stake_amount <= old(config).max_stake
                &&& *final(config) == (ConfigurationAccount {
                    game_counter: (old(config).game_counter + 1) as u64,
                    ..*old(config)
                })
                &&& game.wf()
                &&& game.game_id == old(config).game_counter
                &&& game.spec_game_type() == game_type
                &&& game.spec_game_state() == GameState::Waiting
                &&& game.creator == creator
                &&& game.players@ == seq![creator]
                &&& game.stakes@ == seq![stake_amount]
                &&& game.commit_hashes@.len() == 1
                &&& is_zero32(game.commit_hashes@[0])
                &&& game.reveals_packed@ == seq![0u8]
                &&& game.action_history_packed@.len() == 0
                &&& game.pot_total == stake_amount
                &&& game.entry_fee == stake_amount
                &&& game.spec_current_round() == 0
                &&& game.spec_max_rounds() == initial_max_rounds(game_type, *old(config))
                &&& !game.has_winner
                &&& game.spec_start_time() == now
                &&& game.spec_last_action_time() == now
                &&& game.platform_fee_collected == 0
                &&& game.treasury == old(config).treasury
                &&& game.flags == 0
            },
            Err(e) => {
                &&& e == GameError::InvalidConfig
                &&& !(old(config).min_stake <= stake_amount <= old(config).max_stake)
                &&& *final(config) == *old(config)
            },
        },
{
    if !(stake_amount >= config.min_stake && stake_amount <= config.max_stake) {
        return Err(GameError::InvalidConfig);
    }
    let mut game = GameAccountOptimized::default();
    let ghost stakes0 = game.stakes@;
    game.game_id = config.game_counter;
    game.set_type_and_state(game_type, GameState::Waiting);
    game.creator = creator;
    game.players.push(creator);
    game.stakes.push(stake_amount);
    game.commit_hashes.push([0u8; 32]);
    game.reveals_packed.push(0);
    game.pot_total = stake_amount;
    let max_rounds: u8 = match game_type {
        GameType::SimpleDuel => 1,
        GameType::MultiRound => config.max_rounds,
        GameType::Lottery => 1,
    };
    game.set_rounds(0, max_rounds);
    game.set_timestamps(now, now);
    game.entry_fee = stake_amount;
    game.treasury = config.treasury;
    config.game_counter = config.game_counter + 1;
    proof {
        lemma_nibble_identity(max_rounds);
        lemma_nibble_identity(0);
        lemma_sum_push(stakes0, stake_amount);
        assert(game.players@ =~= seq![creator]);
        assert(game.stakes@ =~= seq![stake_amount]);
        assert(game.reveals_packed@ =~= seq![0u8]);
    }
    Ok(game)
}

/// Admits `player` into a `Waiting` session at the recorded entry
/// fee, which the host must transfer into the vault; returns that
/// amount. Joining the second player of a duel atomically starts the
/// game (state `Active`, round one).
pub fn join_game(game: &mut GameAccountOptimized, player: Pubkey, now: u32) -> (r: Result<
    u64,
    GameError,
>)
    requires
        old(game).wf(),
    ensures
        final(game).wf(),
        match r {
            Ok(fee) => {
                &&& old(game).spec_game_state() == GameState::Waiting
                &&& !contains_key(old(game).players@, player)
                &&& old(game).players@.len() < player_cap(old(game).spec_game_type())
                &&& old(game).pot_total + old(game).entry_fee <= u64::MAX
                &&& fee == old(game).entry_fee
                &&& final(game).players@ == old(game).players@.push(player)
                &&& final(game).stakes@ == old(game).stakes@.push(fee)
                &&& final(game).commit_hashes@.len() == old(game).commit_hashes@.len() + 1
                &&& (forall|i: int| 0 <= i < old(game).commit_hashes@.len()
                    ==> final(game).commit_hashes@[i] == old(game).commit_hashes@[i])
                &&& is_zero32(final(game).commit_hashes@.last())
                &&& final(game).reveals_packed@ == old(game).reveals_packed@.push(0u8)
                &&& final(game).pot_total == old(game).pot_total + fee
                &&& final(game).spec_start_time() == old(game).spec_start_time()
                &&& final(game).spec_last_action_time() == now
                &&& final(game).spec_game_type() == old(game).spec_game_type()
                &&& (if old(game).spec_game_type() != GameType::Lottery
                    && old(game).players@.len() + 1 == 2 {
                    final(game).spec_game_state() == GameState::Active
                        && final(game).spec_current_round() == 1
                } else {
                    final(game).spec_game_state() == old(game).spec_game_state()
                        && final(game).spec_current_round() == old(game).spec_current_round()
                })
                &&& final(game).spec_max_rounds() == old(game).spec_max_rounds()
                &&& final(game).game_id == old(game).game_id
                &&& final(game).creator == old(game).creator
                &&& final(game).winner == old(game).winner
                &&& final(game).has_winner == old(game).has_winner
                &&& final(game).flags == old(game).flags
                &&& final(game).action_history_packed@ == old(game).action_history_packed@
                &&& final(game).platform_fee_collected == old(game).platform_fee_collected
                &&& final(game).treasury == old(game).treasury
                &&& final(game).entry_fee == old(game).entry_fee
                &&& final(game).vrf_result == old(game).vrf_result
            },
            Err(e) => {
                &&& *final(game) == *old(game)
                &&& if old(game).spec_game_state() != GameState::Waiting {
                    e == GameError::InvalidGameState
                } else if contains_key(old(game).players@, player) {
                    e == GameError::PlayerAlreadyJoined
                } else if old(game).players@.len() >= player_cap(old(game).spec_game_type()) {
                    e == GameError::GameFull
                } else {
                    e == GameError::ArithmeticOverflow && old(game).pot_total + old(
                        game,
                    ).entry_fee > u64::MAX
                }
            },
        },
{
    if game.game_state() != GameState::Waiting {
        return Err(GameError::InvalidGameState);
    }
    match find_player(&game.players, &player) {
        Some(_) => {
            return Err(GameError::PlayerAlreadyJoined);
        },
        None => {},
    }
    let cap: usize = match game.game_type() {
        GameType::SimpleDuel => 2,
        GameType::MultiRound => 2,
        GameType::Lottery => MAX_PLAYERS,
    };
    if game.players.len() >= cap {
        return Err(GameError::GameFull);
    }
    let entry_fee = game.entry_fee;
    if game.pot_total > u64::MAX - entry_fee {
        return Err(GameError::ArithmeticOverflow);
    }
    let ghost stakes0 = game.stakes@;
    game.players.push(player);
    game.stakes.push(entry_fee);
    game.commit_hashes.push([0u8; 32]);
    game.reveals_packed.push(0);
    game.pot_total = game.pot_total + entry_fee;
    let start = game.start_time();
    game.set_timestamps(start, now);
    if game.game_type() != GameType::Lottery && game.players.len() == 2 {
        let gt = game.game_type();
        game.set_type_and_state(gt, GameState::Active);
        let mr = game.max_rounds();
        proof {
            lemma_round_nibbles(old(game).rounds);
            lemma_nibble_identity(mr);
            lemma_nibble_identity(1);
        }
        game.set_rounds(1, mr);
    }
    proof {
        lemma_sum_push(stakes0, entry_fee);
    }
    Ok(entry_fee)
}

/// Cancels a `Waiting` session. Only the creator may cancel. Funds
/// are not moved: refunding is a separate settlement operation.
pub fn cancel_game(game: &mut GameAccountOptimized, caller: Pubkey, now: u32) -> (r: Result<
    (),
    GameError,
>)
    requires
        old(game).wf(),
    ensures
        final(game).wf(),
        match r {
            Ok(()) => {
                &&& caller@ == old(game).creator@
                &&& old(game).spec_game_state() == GameState::Waiting
                &&& *final(game) == (GameAccountOptimized {
                    game_type_and_state: final(game).game_type_and_state,
                    timestamps: final(game).timestamps,
                    ..*old(game)
                })
                &&& final(game).spec_game_state() == GameState::Cancelled
                &&& final(game).spec_game_type() == old(game).spec_game_type()
                &&& final(game).spec_start_time() == old(game).spec_start_time()
                &&& final(game).spec_last_action_time() == now
            },
            Err(e) => {
                &&& *final(game) == *old(game)
                &&& if caller@ != old(game).creator@ {
                    e == GameError::UnauthorizedPlayer
                } else {
                    e == GameError::InvalidGameState && old(game).spec_game_state()
                        != GameState::Waiting
                }
            },
        },
{
    if !crate::keys::key_eq(&game.creator, &caller) {
        return Err(GameError::UnauthorizedPlayer);
    }
    if game.game_state() != GameState::Waiting {
        return Err(GameError::InvalidGameState);
    }
    let gt = game.game_type();
    game.set_type_and_state(gt, GameState::Cancelled);
    let start = game.start_time();
    game.set_timestamps(start, now);
    Ok(())
}

/// Finishes a session whose last action is older than the configured
/// timeout. Which participant (if any) should be recorded as winner
/// on a forced timeout is an open policy decision; no winner is set
/// here.
pub fn force_finish(
    game: &mut GameAccountOptimized,
    config: &ConfigurationAccount,
    now: u32,
) -> (r: Result<(), GameError>)
    requires
        old(game).wf(),
    ensures
        final(game).wf(),
        match r {
            Ok(()) => {
                &&& now > old(game).spec_last_action_time()
                &&& now - old(game).spec_last_action_time() > config.timeout
                &&& *final(game) == (GameAccountOptimized {
                    game_type_and_state: final(game).game_type_and_state,
                    timestamps: final(game).timestamps,
                    ..*old(game)
                })
                &&& final(game).spec_game_state() == GameState::Completed
                &&& final(game).spec_game_type() == old(game).spec_game_type()
                &&& final(game).spec_start_time() == old(game).spec_start_time()
                &&& final(game).spec_last_action_time() == now
            },
            Err(e) => {
                &&& *final(game) == *old(game)
                &&& e == GameError::InvalidGameState
                &&& !(now > old(game).spec_last_action_time() && now - old(
                    game,
                ).spec_last_action_time() > config.timeout)
            },
        },
{
    let last_action = game.last_action_time();
    if !(now > last_action && (now - last_action) as u64 > config.timeout) {
        return Err(GameError::InvalidGameState);
    }
    let gt = game.game_type();
    game.set_type_and_state(gt, GameState::Completed);
    let start = game.start_time();
    game.set_timestamps(start, now);
    Ok(())
}

} // verus!
