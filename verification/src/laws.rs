//! The engine's global guarantees, stated as standalone proof
//! functions over the session model.

use vstd::prelude::*;
use crate::game::GameState;
use crate::game_account::GameAccountOptimized;
use crate::sums::sum_all;
use crate::treasury::{lemma_pct_of_bounds, pct_of};

verus! {

/// Fund conservation at settlement. Splitting the pot of a
/// well-formed session into platform fee and winner payout neither
/// creates nor destroys funds: the fee stays within the pot and the
/// two parts add back up to it exactly. And the stakes recorded in
/// the session are fully backed by the pot, so refunding them — each
/// at most its recorded stake — can never disburse more than was
/// transferred in.
pub proof fn lemma_fund_conservation(game: GameAccountOptimized, fee_pct: u8)
    requires
        game.wf(),
        fee_pct <= 100,
    ensures
        0 <= pct_of(game.pot_total, fee_pct) <= game.pot_total,
        pct_of(game.pot_total, fee_pct) + (game.pot_total - pct_of(game.pot_total, fee_pct))
            == game.pot_total,
        sum_all(game.stakes@) <= game.pot_total,
{
    lemma_pct_of_bounds(game.pot_total, fee_pct);
}

/// Round bound: while a well-formed session is active its current
/// round never exceeds its round bound. Advancing past the bound is
/// only possible together with the forced transition to `Resolving`,
/// which every operation's contract preserves.
pub proof fn lemma_round_bound(game: GameAccountOptimized)
    requires
        game.wf(),
        game.spec_game_state() == GameState::Active,
    ensures
        game.spec_current_round() <= game.spec_max_rounds(),
{
}

} // verus!
