use universal_game::config::initialize_config;
use universal_game::errors::TreasuryError;
use universal_game::game::{BetAction, GameState, GameType};
use universal_game::game_account::{GameAccountOptimized, FLAG_FEES_DISTRIBUTED};
use universal_game::keys::Pubkey;
use universal_game::lifecycle::{cancel_game, create_game, join_game};
use universal_game::multi_round::place_bet;
use universal_game::treasury::{batch_refund_all_players, calculate_winner_payout,
    collect_platform_fee, distribute_winnings_with_fees, refund_with_penalty};

fn key(b: u8) -> Pubkey {
    Pubkey::new([b; 32])
}

const STAKE: u64 = 500_000_000;

/// A completed three-round duel that player A won by B's fold.
fn completed_duel() -> GameAccountOptimized {
    let mut config = initialize_config(key(1), key(2));
    config.max_rounds = 3;
    let mut game = create_game(&mut config, key(3), GameType::MultiRound, STAKE, 1000).unwrap();
    join_game(&mut game, key(4), 1010).unwrap();
    place_bet(&mut game, key(4), BetAction::Fold, 1020).unwrap();
    assert_eq!(game.game_state(), GameState::Completed);
    game
}

#[test]
fn winner_payout_splits_the_pot_exactly() {
    assert_eq!(calculate_winner_payout(100, 2), (98, 2));
    assert_eq!(calculate_winner_payout(0, 5), (0, 0));
    assert_eq!(calculate_winner_payout(999, 10), (900, 99));
    assert_eq!(calculate_winner_payout(1_000_000_000, 2), (980_000_000, 20_000_000));
    assert_eq!(calculate_winner_payout(u64::MAX, 100), (0, u64::MAX));
    let (payout, fee) = calculate_winner_payout(123_456_789, 7);
    assert_eq!(payout + fee, 123_456_789);
}

#[test]
fn distribution_pays_once_and_only_once() {
    let config = initialize_config(key(1), key(2));
    let mut game = completed_duel();
    let pot = game.pot_total;
    let (payout, fee) = distribute_winnings_with_fees(&mut game, &config, key(3)).unwrap();
    assert_eq!(payout + fee, pot);
    assert_eq!(fee, pot * 2 / 100);
    assert!(game.get_flag(FLAG_FEES_DISTRIBUTED));
    assert_eq!(game.platform_fee_collected, fee);

    // The second settlement call is a no-op error: no further funds move.
    let pot_before = game.pot_total;
    let stakes_before = game.stakes.clone();
    assert_eq!(
        distribute_winnings_with_fees(&mut game, &config, key(3)),
        Err(TreasuryError::FeesAlreadyDistributed)
    );
    assert_eq!(game.pot_total, pot_before);
    assert_eq!(game.stakes, stakes_before);
    assert_eq!(game.platform_fee_collected, fee);
}

#[test]
fn distribution_rejects_unfinished_session_and_wrong_winner() {
    let config = initialize_config(key(1), key(2));
    let mut config3 = initialize_config(key(1), key(2));
    config3.max_rounds = 3;
    let mut active = create_game(&mut config3, key(3), GameType::MultiRound, STAKE, 1000).unwrap();
    join_game(&mut active, key(4), 1010).unwrap();
    assert_eq!(
        distribute_winnings_with_fees(&mut active, &config, key(3)),
        Err(TreasuryError::GameNotCompleted)
    );

    let mut no_winner = completed_duel();
    no_winner.has_winner = false;
    assert_eq!(
        distribute_winnings_with_fees(&mut no_winner, &config, key(3)),
        Err(TreasuryError::NoWinnerSet)
    );

    let mut game = completed_duel();
    assert_eq!(
        distribute_winnings_with_fees(&mut game, &config, key(4)),
        Err(TreasuryError::InvalidWinner)
    );
    assert!(!game.get_flag(FLAG_FEES_DISTRIBUTED));
}

#[test]
fn collect_platform_fee_is_guarded_by_the_flag() {
    let config = initialize_config(key(1), key(2));
    let mut game = completed_duel();
    let fee = collect_platform_fee(&mut game, &config, key(2)).unwrap();
    assert_eq!(fee, game.pot_total * 2 / 100);
    assert_eq!(game.platform_fee_collected, fee);
    assert_eq!(game.treasury, key(2));
    assert!(game.get_flag(FLAG_FEES_DISTRIBUTED));
    assert_eq!(
        collect_platform_fee(&mut game, &config, key(2)),
        Err(TreasuryError::FeesAlreadyDistributed)
    );
}

#[test]
fn refund_with_penalty_withholds_the_configured_share() {
    let config = initialize_config(key(1), key(2));
    let mut game = completed_duel();
    // Default fold penalty is 10 percent.
    let (refund, penalty) = refund_with_penalty(&mut game, &config, key(3), true).unwrap();
    assert_eq!(penalty, STAKE / 10);
    assert_eq!(refund, STAKE - STAKE / 10);
    assert_eq!(game.stakes[0], 0);
    assert_eq!(game.stakes[1], STAKE);
    // The stake is zeroed, so a second refund finds nothing.
    assert_eq!(
        refund_with_penalty(&mut game, &config, key(3), true),
        Err(TreasuryError::NoStakeToRefund)
    );
    // Without a penalty the full stake comes back.
    let (refund, penalty) = refund_with_penalty(&mut game, &config, key(4), false).unwrap();
    assert_eq!((refund, penalty), (STAKE, 0));
    // A stranger has nothing recorded.
    assert_eq!(
        refund_with_penalty(&mut game, &config, key(9), true),
        Err(TreasuryError::PlayerNotInGame)
    );
}

#[test]
fn refund_penalty_rounds_down() {
    let config = initialize_config(key(1), key(2));
    let mut game = completed_duel();
    game.stakes[0] = 9;
    // floor(9 * 10 / 100) = 0: the penalty rounds down.
    let (refund, penalty) = refund_with_penalty(&mut game, &config, key(3), true).unwrap();
    assert_eq!((refund, penalty), (9, 0));
}

#[test]
fn batch_refund_returns_all_stakes_and_zeroes_the_session() {
    let mut config = initialize_config(key(1), key(2));
    let mut game = create_game(&mut config, key(3), GameType::SimpleDuel, STAKE, 1000).unwrap();
    assert_eq!(
        batch_refund_all_players(&mut game),
        Err(TreasuryError::GameNotCancelled)
    );
    cancel_game(&mut game, key(3), 1010).unwrap();
    let refunds = batch_refund_all_players(&mut game).unwrap();
    assert_eq!(refunds, vec![STAKE]);
    assert_eq!(game.stakes, vec![0]);
    assert_eq!(game.pot_total, 0);
    // Re-driving the refund finds only zeroed stakes.
    let refunds = batch_refund_all_players(&mut game).unwrap();
    assert_eq!(refunds, vec![0]);
}
