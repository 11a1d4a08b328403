//! Lottery engine and randomness-driven resolution: ticket purchase,
//! the time-gated ticket-weighted draw, winnings claims and final
//! resolution of multi-round duels.

use vstd::prelude::*;
use vstd::arithmetic::mul::lemma_mul_inequality;
use crate::config::ConfigurationAccount;
use crate::constants::{LOTTERY_DRAW_INTERVAL, LOTTERY_MAX_TICKETS_PER_PLAYER,
    LOTTERY_TICKET_PRICE, MAX_PLAYERS};
use crate::errors::GameError;
use crate::game::{GameState, GameType};
use crate::game_account::{GameAccountOptimized, FLAG_FEES_DISTRIBUTED};
use crate::keys::{is_zero32, key_eq, Pubkey};
use crate::sums::{lemma_sum_push, sum_all, sum_prefix};
use crate::treasury::{lemma_pct_of_bounds, pct_of};
use crate::vrf::VrfManager;

verus! {

/// How many ticket slots a purchase actually adds: the requested
/// count, capped at the remaining participant capacity. Tickets
/// beyond the cap are dropped without refund; see the design notes on
/// the lottery overflow policy.
pub open spec fn tickets_added(existing: int, num_tickets: u32) -> int {
    if num_tickets as int <= MAX_PLAYERS - existing {
        num_tickets as int
    } else {
        MAX_PLAYERS - existing
    }
}

/// Buys `num_tickets` lottery tickets for `player`: each ticket is
/// one participant slot at the fixed ticket price. The host must
/// transfer the returned total cost into the vault. The first entry
/// activates the lottery and starts its draw clock.
pub fn enter_lottery(
    game: &mut GameAccountOptimized,
    player: Pubkey,
    num_tickets: u32,
    now: u32,
) -> (r: Result<u64, GameError>)
    requires
        old(game).wf(),
    ensures
        final(game).wf(),
        match r {
            Ok(total_cost) => {
                &&& (old(game).spec_game_state() == GameState::Waiting || old(
                    game,
                ).spec_game_state() == GameState::Active)
                &&& old(game).spec_game_type() == GameType::Lottery
                &&& 0 < num_tickets <= LOTTERY_MAX_TICKETS_PER_PLAYER
                &&& total_cost == LOTTERY_TICKET_PRICE * num_tickets
                &&& old(game).pot_total + total_cost <= u64::MAX
                &&& final(game).players@.len() == old(game).players@.len() + tickets_added(
                    old(game).players@.len() as int,
                    num_tickets,
                )
                &&& (forall|i: int| 0 <= i < old(game).players@.len() ==> {
                    &&& final(game).players@[i] == old(game).players@[i]
                    &&& final(game).stakes@[i] == old(game).stakes@[i]
                    &&& final(game).commit_hashes@[i] == old(game).commit_hashes@[i]
                    &&& final(game).reveals_packed@[i] == old(game).reveals_packed@[i]
                })
                &&& (forall|i: int|
                    old(game).players@.len() <= i < final(game).players@.len() ==> {
                        &&& final(game).players@[i] == player
                        &&& final(game).stakes@[i] == LOTTERY_TICKET_PRICE
                        &&& is_zero32(final(game).commit_hashes@[i])
                        &&& final(game).reveals_packed@[i] == 0
                    })
                &&& final(game).pot_total == old(game).pot_total + total_cost
                &&& final(game).spec_game_state() == GameState::Active
                &&& final(game).spec_game_type() == GameType::Lottery
                &&& final(game).spec_start_time() == (
                    if old(game).spec_game_state() == GameState::Waiting {
                        now
                    } else {
                        old(game).spec_start_time()
                    })
                &&& final(game).spec_last_action_time() == now
                &&& final(game).rounds == old(game).rounds
                &&& final(game).winner == old(game).winner
                &&& final(game).has_winner == old(game).has_winner
                &&& final(game).entry_fee == old(game).entry_fee
                &&& final(game).game_id == old(game).game_id
                &&& final(game).creator == old(game).creator
                &&& final(game).action_history_packed@ == old(game).action_history_packed@
                &&& final(game).flags == old(game).flags
                &&& final(game).platform_fee_collected == old(game).platform_fee_collected
                &&& final(game).treasury == old(game).treasury
                &&& final(game).vrf_result == old(game).vrf_result
            },
            Err(e) => {
                &&& *final(game) == *old(game)
                &&& if !(old(game).spec_game_state() == GameState::Waiting || old(
                    game,
                ).spec_game_state() == GameState::Active) {
                    e == GameError::InvalidGameState
                } else if old(game).spec_game_type() != GameType::Lottery {
                    e == GameError::InvalidGameType
                } else if !(0 < num_tickets && num_tickets <= LOTTERY_MAX_TICKETS_PER_PLAYER) {
                    e == GameError::InvalidConfig
                } else {
                    &&& e == GameError::ArithmeticOverflow
                    &&& old(game).pot_total + LOTTERY_TICKET_PRICE * num_tickets > u64::MAX
                }
            },
        },
{
    let state0 = game.game_state();
    if !(state0 == GameState::Waiting || state0 == GameState::Active) {
        return Err(GameError::InvalidGameState);
    }
    if game.game_type() != GameType::Lottery {
        return Err(GameError::InvalidGameType);
    }
    if !(num_tickets > 0 && num_tickets <= LOTTERY_MAX_TICKETS_PER_PLAYER) {
        return Err(GameError::InvalidConfig);
    }
    let total_cost = match LOTTERY_TICKET_PRICE.checked_mul(num_tickets as u64) {
        Some(c) => c,
        None => {
            return Err(GameError::ArithmeticOverflow);
        },
    };
    if game.pot_total > u64::MAX - total_cost {
        return Err(GameError::ArithmeticOverflow);
    }
    let existing = game.players.len();
    let available = MAX_PLAYERS - existing;
    let to_add: usize = if (num_tickets as usize) < available {
        num_tickets as usize
    } else {
        available
    };
    let ghost players0 = game.players@;
    let ghost stakes0 = game.stakes@;
    let mut k: usize = 0;
    while k < to_add
        invariant
            k <= to_add,
            existing + to_add <= MAX_PLAYERS,
            players0.len() == existing,
            stakes0.len() == existing,
            old(game).commit_hashes@.len() == existing,
            old(game).reveals_packed@.len() == existing,
            game.players@.len() == existing + k,
            game.stakes@.len() == existing + k,
            game.commit_hashes@.len() == existing + k,
            game.reveals_packed@.len() == existing + k,
            forall|i: int| 0 <= i < existing ==> {
                &&& game.players@[i] == players0[i]
                &&& game.stakes@[i] == stakes0[i]
                &&& game.commit_hashes@[i] == old(game).commit_hashes@[i]
                &&& game.reveals_packed@[i] == old(game).reveals_packed@[i]
            },
            forall|i: int| existing <= i < existing + k ==> {
                &&& game.players@[i] == player
                &&& game.stakes@[i] == LOTTERY_TICKET_PRICE
                &&& is_zero32(game.commit_hashes@[i])
                &&& game.reveals_packed@[i] == 0
            },
            sum_all(game.stakes@) == sum_all(stakes0) + k * LOTTERY_TICKET_PRICE,
            *game == (GameAccountOptimized {
                players: game.players,
                stakes: game.stakes,
                commit_hashes: game.commit_hashes,
                reveals_packed: game.reveals_packed,
                ..*old(game)
            }),
        decreases to_add - k,
    {
        let ghost stakes_before = game.stakes@;
        game.players.push(player);
        game.stakes.push(LOTTERY_TICKET_PRICE);
        game.commit_hashes.push([0u8; 32]);
        game.reveals_packed.push(0);
        proof {
            lemma_sum_push(stakes_before, LOTTERY_TICKET_PRICE);
        }
        k += 1;
    }
    proof {
        lemma_mul_inequality(to_add as int, num_tickets as int, LOTTERY_TICKET_PRICE as int);
    }
    game.pot_total = game.pot_total + total_cost;
    let start_time = if state0 == GameState::Waiting {
        now
    } else {
        game.start_time()
    };
    game.set_timestamps(start_time, now);
    if state0 == GameState::Waiting {
        game.set_type_and_state(GameType::Lottery, GameState::Active);
    }
    Ok(total_cost)
}

/// Draws the lottery winner once the draw interval has elapsed since
/// the first entry. Selection is ticket-weighted over the externally
/// supplied random value: the winning slot is the one whose
/// cumulative stake range contains the draw.
pub fn draw_lottery(game: &mut GameAccountOptimized, now: u32, randomness: u64) -> (r: Result<
    (),
    GameError,
>)
    requires
        old(game).wf(),
    ensures
        final(game).wf(),
        match r {
            Ok(()) => {
                &&& old(game).spec_game_state() == GameState::Active
                &&& old(game).spec_game_type() == GameType::Lottery
                &&& now - old(game).spec_start_time() >= LOTTERY_DRAW_INTERVAL
                &&& old(game).players@.len() > 0
                &&& sum_all(old(game).stakes@) > 0
                &&& *final(game) == (GameAccountOptimized {
                    game_type_and_state: final(game).game_type_and_state,
                    winner: final(game).winner,
                    has_winner: true,
                    timestamps: final(game).timestamps,
                    ..*old(game)
                })
                &&& final(game).has_winner
                &&& (exists|w: int| {
                    &&& 0 <= w < old(game).players@.len()
                    &&& final(game).winner == old(game).players@[w]
                    &&& sum_prefix(old(game).stakes@, w) <= randomness % (sum_all(
                        old(game).stakes@,
                    ) as u64)
                    &&& randomness % (sum_all(old(game).stakes@) as u64) < sum_prefix(
                        old(game).stakes@,
                        w + 1,
                    )
                })
                &&& final(game).spec_game_state() == GameState::Completed
                &&& final(game).spec_game_type() == GameType::Lottery
                &&& final(game).spec_start_time() == old(game).spec_start_time()
                &&& final(game).spec_last_action_time() == now
            },
            Err(e) => {
                &&& *final(game) == *old(game)
                &&& if old(game).spec_game_state() != GameState::Active {
                    e == GameError::InvalidGameState
                } else if old(game).spec_game_type() != GameType::Lottery {
                    e == GameError::InvalidGameType
                } else if !(now - old(game).spec_start_time() >= LOTTERY_DRAW_INTERVAL) {
                    e == GameError::LotteryNotReady
                } else {
                    &&& e == GameError::NoLotteryParticipants
                    &&& (old(game).players@.len() == 0 || sum_all(old(game).stakes@) == 0)
                }
            },
        },
{
    if game.game_state() != GameState::Active {
        return Err(GameError::InvalidGameState);
    }
    if game.game_type() != GameType::Lottery {
        return Err(GameError::InvalidGameType);
    }
    let start = game.start_time();
    let elapsed: i64 = (now as i64) - (start as i64);
    if !(elapsed >= LOTTERY_DRAW_INTERVAL) {
        return Err(GameError::LotteryNotReady);
    }
    if game.players.len() == 0 {
        return Err(GameError::NoLotteryParticipants);
    }
    let (winner_index, winner_key) = match VrfManager::select_lottery_winner(game, randomness) {
        Ok(w) => w,
        Err(_) => {
            return Err(GameError::NoLotteryParticipants);
        },
    };
    proof {
        assert(winner_index < old(game).players@.len());
    }
    game.winner = winner_key;
    game.has_winner = true;
    let gt = game.game_type();
    game.set_type_and_state(gt, GameState::Completed);
    let start_again = game.start_time();
    game.set_timestamps(start_again, now);
    Ok(())
}

/// Computes the amounts owed on a completed session to its winner:
/// the pot minus the platform fee, and the fee itself, which the host
/// transfers out of the vault. Only the recorded winner may claim,
/// and only once: a successful claim records the fee and sets the
/// monotonic fees-distributed flag, and any later settlement call
/// fails with `FeesAlreadyDistributed` and moves nothing.
pub fn claim_winnings(
    game: &mut GameAccountOptimized,
    config: &ConfigurationAccount,
    caller: Pubkey,
) -> (r: Result<(u64, u64), GameError>)
    requires
        old(game).wf(),
        config.wf(),
    ensures
        final(game).wf(),
        match r {
            Ok(amounts) => {
                &&& !old(game).spec_get_flag(FLAG_FEES_DISTRIBUTED)
                &&& old(game).spec_game_state() == GameState::Completed
                &&& old(game).has_winner
                &&& caller@ == old(game).winner@
                &&& old(game).pot_total * config.platform_fee <= u64::MAX
                &&& amounts.1 == pct_of(old(game).pot_total, config.platform_fee)
                &&& amounts.0 == old(game).pot_total - amounts.1
                &&& amounts.0 + amounts.1 == old(game).pot_total
                &&& *final(game) == (GameAccountOptimized {
                    platform_fee_collected: final(game).platform_fee_collected,
                    flags: final(game).flags,
                    ..*old(game)
                })
                &&& final(game).platform_fee_collected == amounts.1
                &&& final(game).spec_get_flag(FLAG_FEES_DISTRIBUTED)
                &&& forall|o: u8| o < 8 && o != FLAG_FEES_DISTRIBUTED
                    ==> final(game).spec_get_flag(o) == old(game).spec_get_flag(o)
            },
            Err(e) => {
                &&& *final(game) == *old(game)
                &&& if old(game).spec_get_flag(FLAG_FEES_DISTRIBUTED) {
                    e == GameError::FeesAlreadyDistributed
                } else if old(game).spec_game_state() != GameState::Completed {
                    e == GameError::InvalidGameState
                } else if !(old(game).has_winner && caller@ == old(game).winner@) {
                    e == GameError::UnauthorizedPlayer
                } else {
                    &&& e == GameError::ArithmeticOverflow
                    &&& old(game).pot_total * config.platform_fee > u64::MAX
                }
            },
        },
{
    if game.get_flag(FLAG_FEES_DISTRIBUTED) {
        return Err(GameError::FeesAlreadyDistributed);
    }
    if game.game_state() != GameState::Completed {
        return Err(GameError::InvalidGameState);
    }
    if !(game.has_winner && key_eq(&caller, &game.winner)) {
        return Err(GameError::UnauthorizedPlayer);
    }
    let product = match game.pot_total.checked_mul(config.platform_fee as u64) {
        Some(p) => p,
        None => {
            return Err(GameError::ArithmeticOverflow);
        },
    };
    let platform_fee = product / 100;
    proof {
        lemma_pct_of_bounds(game.pot_total, config.platform_fee);
    }
    let winnings = game.pot_total - platform_fee;
    game.platform_fee_collected = platform_fee;
    game.set_flag(FLAG_FEES_DISTRIBUTED, true);
    Ok((winnings, platform_fee))
}

/// Resolves a session that is computing its winner. A multi-round
/// duel picks its winner from the supplied random value, uniformly
/// over the two participants (a documented design gap: wall-clock
/// randomness is predictable; see the design notes). Other kinds just
/// complete.
pub fn resolve_game(game: &mut GameAccountOptimized, now: u32, randomness: u64) -> (r: Result<
    (),
    GameError,
>)
    requires
        old(game).wf(),
    ensures
        final(game).wf(),
        match r {
            Ok(()) => {
                &&& old(game).spec_game_state() == GameState::Resolving
                &&& *final(game) == (GameAccountOptimized {
                    game_type_and_state: final(game).game_type_and_state,
                    winner: final(game).winner,
                    has_winner: final(game).has_winner,
                    timestamps: final(game).timestamps,
                    ..*old(game)
                })
                &&& (if old(game).spec_game_type() == GameType::MultiRound {
                    &&& old(game).players@.len() == 2
                    &&& final(game).has_winner
                    &&& final(game).winner == old(game).players@[(randomness % 2) as int]
                } else {
                    &&& final(game).winner == old(game).winner
                    &&& final(game).has_winner == old(game).has_winner
                })
                &&& final(game).spec_game_state() == GameState::Completed
                &&& final(game).spec_game_type() == old(game).spec_game_type()
                &&& final(game).spec_start_time() == old(game).spec_start_time()
                &&& final(game).spec_last_action_time() == now
            },
            Err(e) => {
                &&& *final(game) == *old(game)
                &&& e == GameError::InvalidGameState
                &&& old(game).spec_game_state() != GameState::Resolving
            },
        },
{
    if game.game_state() != GameState::Resolving {
        return Err(GameError::InvalidGameState);
    }
    if game.game_type() == GameType::MultiRound {
        let count = game.players.len() as u64;
        let winner_index = (randomness % count) as usize;
        game.winner = game.players[winner_index];
        game.has_winner = true;
    }
    let gt = game.game_type();
    game.set_type_and_state(gt, GameState::Completed);
    let start = game.start_time();
    game.set_timestamps(start, now);
    Ok(())
}

} // verus!
