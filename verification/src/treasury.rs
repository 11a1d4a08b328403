//! Settlement: platform-fee collection, winner payout, penalty
//! refunds and batch refunds.
//!
//! Fee distribution is guarded by the monotonic fees-distributed
//! flag: a second settlement call fails with `FeesAlreadyDistributed`
//! and moves nothing. Every function returns the amounts the host
//! must transfer out of the vault; a failing call changes nothing.

use vstd::prelude::*;
use vstd::arithmetic::div_mod::{lemma_div_is_ordered, lemma_div_multiples_vanish};
use vstd::arithmetic::mul::lemma_mul_inequality;
use crate::config::ConfigurationAccount;
use crate::errors::TreasuryError;
use crate::game::GameState;
use crate::game_account::{GameAccountOptimized, FLAG_FEES_DISTRIBUTED};
use crate::keys::{contains_key, find_player, key_index, key_eq, Pubkey};
use crate::sums::{lemma_sum_prefix_update, sum_all};

verus! {

/// The settlement percentage formula: `floor(amount * pct / 100)`.
pub open spec fn pct_of(amount: u64, pct: u8) -> int {
    (amount * pct) / 100
}

/// For a percentage of at most 100 the formula stays within the
/// amount: no fee or penalty can exceed what it is taken from.
pub proof fn lemma_pct_of_bounds(amount: u64, pct: u8)
    requires
        pct <= 100,
    ensures
        0 <= pct_of(amount, pct) <= amount,
{
    lemma_mul_inequality(pct as int, 100, amount as int);
    lemma_div_is_ordered(0, amount * pct, 100);
    lemma_div_is_ordered(amount * pct, amount * 100, 100);
    lemma_div_multiples_vanish(amount as int, 100);
}

/// Computes `floor(amount * pct / 100)` exactly, for every amount.
pub fn percentage_amount(amount: u64, pct: u8) -> (r: u64)
    requires
        pct <= 100,
    ensures
        r == pct_of(amount, pct),
{
    proof {
        lemma_pct_of_bounds(amount, pct);
    }
    (((amount as u128) * (pct as u128)) / 100) as u64
}

/// Collects the platform fee of a session into the treasury: computes
/// `floor(pot * fee / 100)`, records it, and sets the monotonic
/// fees-distributed flag. A second call fails and collects nothing.
/// The host must transfer the returned amount to the treasury.
pub fn collect_platform_fee(
    game: &mut GameAccountOptimized,
    config: &ConfigurationAccount,
    treasury: Pubkey,
) -> (r: Result<u64, TreasuryError>)
    requires
        old(game).wf(),
        config.wf(),
    ensures
        final(game).wf(),
        match r {
            Ok(fee) => {
                &&& !old(game).spec_get_flag(FLAG_FEES_DISTRIBUTED)
                &&& fee == pct_of(old(game).pot_total, config.platform_fee)
                &&& *final(game) == (GameAccountOptimized {
                    platform_fee_collected: final(game).platform_fee_collected,
                    treasury: final(game).treasury,
                    flags: final(game).flags,
                    ..*old(game)
                })
                &&& final(game).platform_fee_collected == fee
                &&& final(game).treasury == treasury
                &&& final(game).spec_get_flag(FLAG_FEES_DISTRIBUTED)
                &&& forall|o: u8| o < 8 && o != FLAG_FEES_DISTRIBUTED
                    ==> final(game).spec_get_flag(o) == old(game).spec_get_flag(o)
            },
            Err(e) => {
                &&& e == TreasuryError::FeesAlreadyDistributed
                &&& old(game).spec_get_flag(FLAG_FEES_DISTRIBUTED)
                &&& *final(game) == *old(game)
            },
        },
{
    if game.get_flag(FLAG_FEES_DISTRIBUTED) {
        return Err(TreasuryError::FeesAlreadyDistributed);
    }
    let platform_fee_amount = percentage_amount(game.pot_total, config.platform_fee);
    game.platform_fee_collected = platform_fee_amount;
    game.treasury = treasury;
    game.set_flag(FLAG_FEES_DISTRIBUTED, true);
    Ok(platform_fee_amount)
}

/// Splits a pot into winner payout and platform fee. The two always
/// add back up to the whole pot: settlement creates and destroys no
/// funds.
pub fn calculate_winner_payout(pot_total: u64, platform_fee_percentage: u8) -> (r: (u64, u64))
    requires
        platform_fee_percentage <= 100,
    ensures
        r.1 == pct_of(pot_total, platform_fee_percentage),
        r.0 == pot_total - r.1,
        r.0 + r.1 == pot_total,
{
    let platform_fee = percentage_amount(pot_total, platform_fee_percentage);
    proof {
        lemma_pct_of_bounds(pot_total, platform_fee_percentage);
    }
    (pot_total - platform_fee, platform_fee)
}

/// Pays a completed session out: the platform fee to the treasury and
/// the remainder to the recorded winner, exactly once. Fails without
/// moving anything if fees were already distributed, the session is
/// not completed, no winner is recorded, or the supplied payout
/// target is not the recorded winner. The host must transfer the
/// returned (payout, fee) pair out of the vault.
pub fn distribute_winnings_with_fees(
    game: &mut GameAccountOptimized,
    config: &ConfigurationAccount,
    winner: Pubkey,
) -> (r: Result<(u64, u64), TreasuryError>)
    requires
        old(game).wf(),
        config.wf(),
    ensures
        final(game).wf(),
        match r {
            Ok(amounts) => {
                &&& !old(game).spec_get_flag(FLAG_FEES_DISTRIBUTED)
                &&& old(game).spec_game_state() == GameState::Completed
                &&& old(game).has_winner
                &&& winner@ == old(game).winner@
                &&& amounts.1 == pct_of(old(game).pot_total, config.platform_fee)
                &&& amounts.0 == old(game).pot_total - amounts.1
                &&& amounts.0 + amounts.1 == old(game).pot_total
                &&& *final(game) == (GameAccountOptimized {
                    platform_fee_collected: final(game).platform_fee_collected,
                    flags: final(game).flags,
                    ..*old(game)
                })
                &&& final(game).platform_fee_collected == (if amounts.1 > 0 {
                    amounts.1
                } else {
                    old(game).platform_fee_collected
                })
                &&& final(game).spec_get_flag(FLAG_FEES_DISTRIBUTED)
                &&& forall|o: u8| o < 8 && o != FLAG_FEES_DISTRIBUTED
                    ==> final(game).spec_get_flag(o) == old(game).spec_get_flag(o)
            },
            Err(e) => {
                &&& *final(game) == *old(game)
                &&& if old(game).spec_get_flag(FLAG_FEES_DISTRIBUTED) {
                    e == TreasuryError::FeesAlreadyDistributed
                } else if old(game).spec_game_state() != GameState::Completed {
                    e == TreasuryError::GameNotCompleted
                } else if !old(game).has_winner {
                    e == TreasuryError::NoWinnerSet
                } else {
                    e == TreasuryError::InvalidWinner && winner@ != old(game).winner@
                }
            },
        },
{
    if game.get_flag(FLAG_FEES_DISTRIBUTED) {
        return Err(TreasuryError::FeesAlreadyDistributed);
    }
    if game.game_state() != GameState::Completed {
        return Err(TreasuryError::GameNotCompleted);
    }
    if !game.has_winner {
        return Err(TreasuryError::NoWinnerSet);
    }
    if !key_eq(&game.winner, &winner) {
        return Err(TreasuryError::InvalidWinner);
    }
    let (winner_payout, platform_fee) = calculate_winner_payout(
        game.pot_total,
        config.platform_fee,
    );
    if platform_fee > 0 {
        game.platform_fee_collected = platform_fee;
    }
    game.set_flag(FLAG_FEES_DISTRIBUTED, true);
    Ok((winner_payout, platform_fee))
}

/// Refunds one participant's recorded stake, minus the fold penalty
/// when one applies, and zeroes the stake so a second refund finds
/// nothing. Returns (refund to the participant, penalty withheld for
/// the treasury); the two add back up to the whole stake.
pub fn refund_with_penalty(
    game: &mut GameAccountOptimized,
    config: &ConfigurationAccount,
    player: Pubkey,
    apply_penalty: bool,
) -> (r: Result<(u64, u64), TreasuryError>)
    requires
        old(game).wf(),
        config.wf(),
    ensures
        final(game).wf(),
        match r {
            Ok(amounts) => {
                &&& contains_key(old(game).players@, player)
                &&& old(game).stakes@[key_index(old(game).players@, player)] > 0
                &&& amounts.1 == (if apply_penalty {
                    pct_of(
                        old(game).stakes@[key_index(old(game).players@, player)],
                        config.fold_penalty,
                    )
                } else {
                    0int
                })
                &&& amounts.0 == old(game).stakes@[key_index(old(game).players@, player)]
                    - amounts.1
                &&& amounts.0 + amounts.1 == old(game).stakes@[key_index(
                    old(game).players@,
                    player,
                )]
                &&& final(game).stakes@ == old(game).stakes@.update(
                    key_index(old(game).players@, player),
                    0u64,
                )
                &&& *final(game) == (GameAccountOptimized {
                    stakes: final(game).stakes,
                    ..*old(game)
                })
            },
            Err(e) => {
                &&& *final(game) == *old(game)
                &&& if !contains_key(old(game).players@, player) {
                    e == TreasuryError::PlayerNotInGame
                } else {
                    e == TreasuryError::NoStakeToRefund && old(game).stakes@[key_index(
                        old(game).players@,
                        player,
                    )] == 0
                }
            },
        },
{
    let player_index = match find_player(&game.players, &player) {
        Some(i) => i,
        None => {
            return Err(TreasuryError::PlayerNotInGame);
        },
    };
    let stake = game.stakes[player_index];
    if stake == 0 {
        return Err(TreasuryError::NoStakeToRefund);
    }
    let penalty_amount: u64 = if apply_penalty {
        percentage_amount(stake, config.fold_penalty)
    } else {
        0
    };
    proof {
        if apply_penalty {
            lemma_pct_of_bounds(stake, config.fold_penalty);
        }
    }
    let refund_amount = stake - penalty_amount;
    let ghost stakes0 = game.stakes@;
    game.stakes.set(player_index, 0);
    proof {
        lemma_sum_prefix_update(stakes0, stakes0.len() as int, player_index as int, 0u64);
        crate::sums::lemma_sum_prefix_elem_le(stakes0, stakes0.len() as int, player_index as int);
    }
    Ok((refund_amount, penalty_amount))
}

/// Refunds every participant's full stake of a cancelled session, in
/// slot order, zeroing each stake and the pot. Returns the per-slot
/// refund amounts, which mirror the stakes as they were recorded; a
/// slot already refunded (stake zero) gets zero again, so the
/// operation can be re-driven after a partial failure.
pub fn batch_refund_all_players(game: &mut GameAccountOptimized) -> (r: Result<
    Vec<u64>,
    TreasuryError,
>)
    requires
        old(game).wf(),
    ensures
        final(game).wf(),
        match r {
            Ok(refunds) => {
                &&& old(game).spec_game_state() == GameState::Cancelled
                &&& refunds@ == old(game).stakes@
                &&& sum_all(refunds@) <= old(game).pot_total
                &&& final(game).stakes@.len() == old(game).stakes@.len()
                &&& (forall|i: int| 0 <= i < final(game).stakes@.len()
                    ==> final(game).stakes@[i] == 0)
                &&& final(game).pot_total == 0
                &&& *final(game) == (GameAccountOptimized {
                    stakes: final(game).stakes,
                    pot_total: 0,
                    ..*old(game)
                })
            },
            Err(e) => {
                &&& e == TreasuryError::GameNotCancelled
                &&& old(game).spec_game_state() != GameState::Cancelled
                &&& *final(game) == *old(game)
            },
        },
{
    if game.game_state() != GameState::Cancelled {
        return Err(TreasuryError::GameNotCancelled);
    }
    let ghost stakes0 = game.stakes@;
    let n = game.stakes.len();
    let mut refunds: Vec<u64> = Vec::new();
    let mut i: usize = 0;
    while i < n
        invariant
            i <= n,
            n == game.stakes@.len(),
            stakes0.len() == n,
            refunds@ == stakes0.subrange(0, i as int),
            forall|j: int| 0 <= j < i ==> game.stakes@[j] == 0,
            forall|j: int| i <= j < n ==> game.stakes@[j] == stakes0[j],
            *game == (GameAccountOptimized { stakes: game.stakes, ..*old(game) }),
        decreases n - i,
    {
        let stake = game.stakes[i];
        refunds.push(stake);
        game.stakes.set(i, 0);
        proof {
            assert(stakes0.subrange(0, (i + 1) as int) =~= stakes0.subrange(0, i as int).push(
                stakes0[i as int],
            ));
        }
        i += 1;
    }
    game.pot_total = 0;
    proof {
        assert(refunds@ =~= stakes0);
        crate::sums::lemma_sum_prefix_zero(game.stakes@, game.stakes@.len() as int);
    }
    Ok(refunds)
}

} // verus!
