//! Multi-round betting engine: a simplified pot-building protocol.
//!
//! Each action is validated against the session, appended to a
//! bounded action log, and its fund movement (how much the caller
//! must transfer into the vault) is returned to the host. The round
//! advances once the number of logged actions is a multiple of the
//! participant count; passing the round bound forces `Resolving`.

use vstd::prelude::*;
use crate::constants::MAX_ACTIONS;
use crate::errors::GameError;
use crate::game::{BetAction, GameState, GameType};
use crate::game_account::{lemma_nibble_identity, GameAccountOptimized};
use crate::keys::{contains_key, find_player, key_index, Pubkey};
use crate::sums::{lemma_sum_prefix_update, sum_all};

verus! {

/// Maximum of the first `n` stakes (zero when there are none).
pub open spec fn max_prefix(s: Seq<u64>, n: int) -> u64
    decreases n,
{
    if n <= 0 {
        0
    } else if s[n - 1] > max_prefix(s, n - 1) {
        s[n - 1]
    } else {
        max_prefix(s, n - 1)
    }
}

/// The bet every participant must match: the highest stake recorded
/// in the session.
pub open spec fn spec_current_bet(s: Seq<u64>) -> u64 {
    max_prefix(s, s.len() as int)
}

/// Every stake below the bound is at most the prefix maximum.
pub proof fn lemma_max_prefix_ge(s: Seq<u64>, n: int, j: int)
    requires
        0 <= j < n <= s.len(),
    ensures
        s[j] <= max_prefix(s, n),
    decreases n,
{
    if j < n - 1 {
        lemma_max_prefix_ge(s, n - 1, j);
    }
}

/// Computes the current bet: the highest stake among the participant
/// slots.
pub fn calculate_current_bet(game: &GameAccountOptimized) -> (r: u64)
    ensures
        r == spec_current_bet(game.stakes@),
        forall|j: int| 0 <= j < game.stakes@.len() ==> game.stakes@[j] <= r,
{
    let n = game.stakes.len();
    let mut highest: u64 = 0;
    let mut i: usize = 0;
    while i < n
        invariant
            i <= n,
            n == game.stakes@.len(),
            highest == max_prefix(game.stakes@, i as int),
        decreases n - i,
    {
        if game.stakes[i] > highest {
            highest = game.stakes[i];
        }
        i += 1;
    }
    proof {
        assert forall|j: int| 0 <= j < game.stakes@.len() implies game.stakes@[j] <= highest by {
            lemma_max_prefix_ge(game.stakes@, game.stakes@.len() as int, j);
        }
    }
    highest
}

/// Whether the betting round is complete: every active participant
/// has acted, approximated as "the action count is a multiple of the
/// participant count".
pub open spec fn spec_should_advance(log_len: int, n_players: int) -> bool {
    n_players > 0 && log_len % n_players == 0
}

/// Runtime check of the round-advance rule.
pub fn should_advance_round(game: &GameAccountOptimized) -> (r: bool)
    ensures
        r == spec_should_advance(
            game.action_history_packed@.len() as int,
            game.players@.len() as int,
        ),
{
    if game.players.len() == 0 {
        return false;
    }
    game.action_history_packed.len() % game.players.len() == 0
}

/// The action log after recording one action byte: appended while
/// there is capacity, silently kept otherwise.
pub open spec fn log_appended(log: Seq<u8>, code: u8) -> Seq<u8> {
    if log.len() < MAX_ACTIONS {
        log.push(code)
    } else {
        log
    }
}

/// The storage byte of each betting action.
pub open spec fn action_code(action: BetAction) -> u8 {
    match action {
        BetAction::Check => 0,
        BetAction::Call => 1,
        BetAction::Raise(_) => 2,
        BetAction::Fold => 3,
    }
}

/// Records one betting action in an `Active` multi-round duel and
/// returns the amount the caller must transfer into the vault:
/// nothing for `Check` and `Fold`, the difference up to the current
/// bet for `Call`, the difference up to the raised amount for `Raise`.
/// A `Fold` immediately declares the other participant winner and
/// completes the session; folding in the final round is refused.
pub fn place_bet(
    game: &mut GameAccountOptimized,
    player: Pubkey,
    action: BetAction,
    now: u32,
) -> (r: Result<u64, GameError>)
    requires
        old(game).wf(),
    ensures
        final(game).wf(),
        match r {
            Ok(transfer) => {
                &&& old(game).spec_game_state() == GameState::Active
                &&& old(game).spec_game_type() == GameType::MultiRound
                &&& contains_key(old(game).players@, player)
                &&& *final(game) == (GameAccountOptimized {
                    game_type_and_state: final(game).game_type_and_state,
                    stakes: final(game).stakes,
                    pot_total: final(game).pot_total,
                    rounds: final(game).rounds,
                    action_history_packed: final(game).action_history_packed,
                    winner: final(game).winner,
                    has_winner: final(game).has_winner,
                    timestamps: final(game).timestamps,
                    ..*old(game)
                })
                &&& final(game).spec_game_type() == GameType::MultiRound
                &&& final(game).spec_start_time() == old(game).spec_start_time()
                &&& final(game).spec_last_action_time() == now
                &&& final(game).action_history_packed@ == log_appended(
                    old(game).action_history_packed@,
                    action_code(action),
                )
                &&& final(game).spec_max_rounds() == old(game).spec_max_rounds()
                &&& (match action {
                    BetAction::Check => {
                        &&& transfer == 0
                        &&& final(game).stakes@ == old(game).stakes@
                        &&& final(game).pot_total == old(game).pot_total
                        &&& final(game).winner == old(game).winner
                        &&& final(game).has_winner == old(game).has_winner
                    },
                    BetAction::Call => {
                        &&& transfer == spec_current_bet(old(game).stakes@) - old(
                            game,
                        ).stakes@[key_index(old(game).players@, player)]
                        &&& final(game).stakes@ == old(game).stakes@.update(
                            key_index(old(game).players@, player),
                            spec_current_bet(old(game).stakes@),
                        )
                        &&& final(game).pot_total == old(game).pot_total + transfer
                        &&& final(game).winner == old(game).winner
                        &&& final(game).has_winner == old(game).has_winner
                    },
                    BetAction::Raise(amount) => {
                        &&& amount > spec_current_bet(old(game).stakes@)
                        &&& transfer == amount - old(game).stakes@[key_index(
                            old(game).players@,
                            player,
                        )]
                        &&& final(game).stakes@ == old(game).stakes@.update(
                            key_index(old(game).players@, player),
                            amount,
                        )
                        &&& final(game).pot_total == old(game).pot_total + transfer
                        &&& final(game).winner == old(game).winner
                        &&& final(game).has_winner == old(game).has_winner
                    },
                    BetAction::Fold => {
                        &&& transfer == 0
                        &&& old(game).spec_current_round() < old(game).spec_max_rounds()
                        &&& final(game).stakes@ == old(game).stakes@
                        &&& final(game).pot_total == old(game).pot_total
                        &&& final(game).has_winner
                        &&& final(game).winner == old(game).players@[
                            if key_index(old(game).players@, player) == 0 {
                                1int
                            } else {
                                0int
                            }
                        ]
                        &&& final(game).spec_game_state() == GameState::Completed
                    },
                })
                &&& (match action {
                    BetAction::Fold => {
                        let advanced = spec_should_advance(
                            log_appended(
                                old(game).action_history_packed@,
                                action_code(action),
                            ).len() as int,
                            old(game).players@.len() as int,
                        );
                        &&& (advanced ==> final(game).spec_current_round() == old(
                            game,
                        ).spec_current_round() + 1)
                        &&& (!advanced ==> final(game).spec_current_round() == old(
                            game,
                        ).spec_current_round())
                    },
                    _ => {
                        let advanced = spec_should_advance(
                            log_appended(
                                old(game).action_history_packed@,
                                action_code(action),
                            ).len() as int,
                            old(game).players@.len() as int,
                        );
                        &&& (advanced && old(game).spec_current_round() + 1 > old(
                            game,
                        ).spec_max_rounds() ==> final(game).spec_game_state()
                            == GameState::Resolving && final(game).spec_current_round() == (((
                        old(game).spec_current_round() + 1) as u8) & 0x0F))
                        &&& (advanced && old(game).spec_current_round() + 1 <= old(
                            game,
                        ).spec_max_rounds() ==> final(game).spec_game_state() == GameState::Active
                            && final(game).spec_current_round() == old(game).spec_current_round()
                            + 1)
                        &&& (!advanced ==> final(game).spec_game_state() == GameState::Active
                            && final(game).spec_current_round() == old(game).spec_current_round())
                    },
                })
            },
            Err(e) => {
                &&& *final(game) == *old(game)
                &&& if old(game).spec_game_state() != GameState::Active {
                    e == GameError::InvalidGameState
                } else if old(game).spec_game_type() != GameType::MultiRound {
                    e == GameError::InvalidGameType
                } else if !contains_key(old(game).players@, player) {
                    e == GameError::UnauthorizedPlayer
                } else {
                    match action {
                        BetAction::Check => false,
                        BetAction::Call => {
                            &&& e == GameError::ArithmeticOverflow
                            &&& old(game).pot_total + (spec_current_bet(old(game).stakes@) - old(
                                game,
                            ).stakes@[key_index(old(game).players@, player)]) > u64::MAX
                        },
                        BetAction::Raise(amount) => {
                            if amount <= spec_current_bet(old(game).stakes@) {
                                e == GameError::InvalidBetAction
                            } else {
                                &&& e == GameError::ArithmeticOverflow
                                &&& old(game).pot_total + (amount - old(game).stakes@[key_index(
                                    old(game).players@,
                                    player,
                                )]) > u64::MAX
                            }
                        },
                        BetAction::Fold => {
                            &&& e == GameError::CannotFoldFinalRound
                            &&& old(game).spec_current_round() >= old(game).spec_max_rounds()
                        },
                    }
                }
            },
        },
{
    if game.game_state() != GameState::Active {
        return Err(GameError::InvalidGameState);
    }
    if game.game_type() != GameType::MultiRound {
        return Err(GameError::InvalidGameType);
    }
    let player_index = match find_player(&game.players, &player) {
        Some(i) => i,
        None => {
            return Err(GameError::UnauthorizedPlayer);
        },
    };
    let transfer: u64;
    match action {
        BetAction::Check => {
            transfer = 0;
            if game.action_history_packed.len() < MAX_ACTIONS {
                game.action_history_packed.push(0);
            }
        },
        BetAction::Call => {
            let current_bet = calculate_current_bet(game);
            let player_bet = game.stakes[player_index];
            let call_amount = current_bet - player_bet;
            if game.pot_total > u64::MAX - call_amount {
                return Err(GameError::ArithmeticOverflow);
            }
            let ghost stakes0 = game.stakes@;
            game.stakes.set(player_index, current_bet);
            game.pot_total = game.pot_total + call_amount;
            proof {
                lemma_sum_prefix_update(
                    stakes0,
                    stakes0.len() as int,
                    player_index as int,
                    current_bet,
                );
            }
            transfer = call_amount;
            if game.action_history_packed.len() < MAX_ACTIONS {
                game.action_history_packed.push(1);
            }
        },
        BetAction::Raise(amount) => {
            let current_bet = calculate_current_bet(game);
            if amount <= current_bet {
                return Err(GameError::InvalidBetAction);
            }
            let player_bet = game.stakes[player_index];
            let raise_amount = amount - player_bet;
            if game.pot_total > u64::MAX - raise_amount {
                return Err(GameError::ArithmeticOverflow);
            }
            let ghost stakes0 = game.stakes@;
            game.stakes.set(player_index, amount);
            game.pot_total = game.pot_total + raise_amount;
            proof {
                lemma_sum_prefix_update(
                    stakes0,
                    stakes0.len() as int,
                    player_index as int,
                    amount,
                );
            }
            transfer = raise_amount;
            if game.action_history_packed.len() < MAX_ACTIONS {
                game.action_history_packed.push(2);
            }
        },
        BetAction::Fold => {
            if game.current_round() >= game.max_rounds() {
                return Err(GameError::CannotFoldFinalRound);
            }
            transfer = 0;
            let winner_index: usize = if player_index == 0 {
                1
            } else {
                0
            };
            game.winner = game.players[winner_index];
            game.has_winner = true;
            let gt = game.game_type();
            game.set_type_and_state(gt, GameState::Completed);
            let start = game.start_time();
            game.set_timestamps(start, now);
            if game.action_history_packed.len() < MAX_ACTIONS {
                game.action_history_packed.push(3);
            }
        },
    }
    let start = game.start_time();
    game.set_timestamps(start, now);
    if should_advance_round(game) {
        let current_round = game.current_round();
        let max_rounds = game.max_rounds();
        proof {
            crate::game_account::lemma_round_nibbles(game.rounds);
            lemma_nibble_identity(max_rounds);
            if current_round + 1 <= 15 {
                lemma_nibble_identity((current_round + 1) as u8);
            }
        }
        game.set_rounds(current_round + 1, max_rounds);
        if current_round + 1 > max_rounds {
            let gt = game.game_type();
            game.set_type_and_state(gt, GameState::Resolving);
        }
    }
    Ok(transfer)
}

} // verus!
