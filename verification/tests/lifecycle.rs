use universal_game::config::initialize_config;
use universal_game::config::update_config;
use universal_game::errors::GameError;
use universal_game::game::{GameState, GameType};
use universal_game::keys::Pubkey;
use universal_game::lifecycle::{cancel_game, create_game, force_finish, join_game};

fn key(b: u8) -> Pubkey {
    Pubkey::new([b; 32])
}

const STAKE: u64 = 500_000_000;

#[test]
fn initialize_config_has_documented_defaults() {
    let config = initialize_config(key(1), key(2));
    assert_eq!(config.admin, key(1));
    assert_eq!(config.treasury, key(2));
    assert_eq!(config.min_stake, 100_000_000);
    assert_eq!(config.max_stake, 10_000_000_000);
    assert_eq!(config.max_rounds, 10);
    assert_eq!(config.fold_penalty, 10);
    assert_eq!(config.platform_fee, 2);
    assert_eq!(config.timeout, 3600);
    assert_eq!(config.game_counter, 0);
    assert_eq!(config.item_prices, vec![100_000_000; 10]);
}

#[test]
fn update_config_applies_requested_fields() {
    let mut config = initialize_config(key(1), key(2));
    let r = update_config(&mut config, key(1), Some(1), Some(50), Some(5), Some(400));
    assert_eq!(r, Ok(()));
    assert_eq!(config.min_stake, 1);
    assert_eq!(config.max_stake, 50);
    assert_eq!(config.platform_fee, 5);
    assert_eq!(config.timeout, 400);
}

#[test]
fn update_config_rejects_non_admin() {
    let mut config = initialize_config(key(1), key(2));
    let r = update_config(&mut config, key(9), None, None, Some(5), None);
    assert_eq!(r, Err(GameError::UnauthorizedPlayer));
    assert_eq!(config.platform_fee, 2);
}

#[test]
fn update_config_rejects_bad_values() {
    let mut config = initialize_config(key(1), key(2));
    assert_eq!(
        update_config(&mut config, key(1), Some(100), Some(50), None, None),
        Err(GameError::InvalidConfig)
    );
    assert_eq!(
        update_config(&mut config, key(1), None, None, Some(11), None),
        Err(GameError::InvalidConfig)
    );
    assert_eq!(
        update_config(&mut config, key(1), None, None, None, Some(299)),
        Err(GameError::InvalidConfig)
    );
}

#[test]
fn create_game_initializes_session_and_bumps_counter() {
    let mut config = initialize_config(key(1), key(2));
    let game = create_game(&mut config, key(3), GameType::SimpleDuel, STAKE, 1000).unwrap();
    assert_eq!(config.game_counter, 1);
    assert_eq!(game.game_id, 0);
    assert_eq!(game.game_type(), GameType::SimpleDuel);
    assert_eq!(game.game_state(), GameState::Waiting);
    assert_eq!(game.creator, key(3));
    assert_eq!(game.players, vec![key(3)]);
    assert_eq!(game.stakes, vec![STAKE]);
    assert_eq!(game.pot_total, STAKE);
    assert_eq!(game.entry_fee, STAKE);
    assert_eq!(game.current_round(), 0);
    assert_eq!(game.max_rounds(), 1);
    assert_eq!(game.start_time(), 1000);
    assert_eq!(game.last_action_time(), 1000);
    assert!(!game.has_winner);
    assert_eq!(game.treasury, key(2));
}

#[test]
fn create_multi_round_takes_configured_round_bound() {
    let mut config = initialize_config(key(1), key(2));
    let game = create_game(&mut config, key(3), GameType::MultiRound, STAKE, 1000).unwrap();
    assert_eq!(game.max_rounds(), 10);
    let lottery = create_game(&mut config, key(3), GameType::Lottery, STAKE, 1000).unwrap();
    assert_eq!(lottery.max_rounds(), 1);
    assert_eq!(lottery.game_id, 1);
    assert_eq!(config.game_counter, 2);
}

#[test]
fn create_game_rejects_stake_out_of_bounds() {
    let mut config = initialize_config(key(1), key(2));
    assert_eq!(
        create_game(&mut config, key(3), GameType::SimpleDuel, 1, 1000).unwrap_err(),
        GameError::InvalidConfig
    );
    assert_eq!(
        create_game(&mut config, key(3), GameType::SimpleDuel, u64::MAX, 1000).unwrap_err(),
        GameError::InvalidConfig
    );
    assert_eq!(config.game_counter, 0);
}

#[test]
fn join_game_starts_a_duel_at_two_players() {
    let mut config = initialize_config(key(1), key(2));
    let mut game = create_game(&mut config, key(3), GameType::SimpleDuel, STAKE, 1000).unwrap();
    let fee = join_game(&mut game, key(4), 1010).unwrap();
    assert_eq!(fee, STAKE);
    assert_eq!(game.players, vec![key(3), key(4)]);
    assert_eq!(game.stakes, vec![STAKE, STAKE]);
    assert_eq!(game.pot_total, 2 * STAKE);
    assert_eq!(game.game_state(), GameState::Active);
    assert_eq!(game.current_round(), 1);
    assert_eq!(game.last_action_time(), 1010);
    assert_eq!(game.start_time(), 1000);
}

#[test]
fn duplicate_join_rejected() {
    let mut config = initialize_config(key(1), key(2));
    let mut game = create_game(&mut config, key(3), GameType::SimpleDuel, STAKE, 1000).unwrap();
    let r = join_game(&mut game, key(3), 1010);
    assert_eq!(r, Err(GameError::PlayerAlreadyJoined));
    assert_eq!(game.players.len(), 1);
    assert_eq!(game.pot_total, STAKE);
    assert_eq!(game.game_state(), GameState::Waiting);
}

#[test]
fn join_rejects_wrong_state_and_full_game() {
    let mut config = initialize_config(key(1), key(2));
    let mut game = create_game(&mut config, key(3), GameType::SimpleDuel, STAKE, 1000).unwrap();
    join_game(&mut game, key(4), 1010).unwrap();
    // The duel went Active at two players, so a third join fails on state.
    assert_eq!(join_game(&mut game, key(5), 1020), Err(GameError::InvalidGameState));
    assert_eq!(game.players.len(), 2);
    // With the session forced back to Waiting, the two-player cap itself bites.
    game.set_type_and_state(GameType::SimpleDuel, GameState::Waiting);
    assert_eq!(join_game(&mut game, key(5), 1030), Err(GameError::GameFull));
    assert_eq!(game.players.len(), 2);
}

#[test]
fn cancel_game_only_creator_only_waiting() {
    let mut config = initialize_config(key(1), key(2));
    let mut game = create_game(&mut config, key(3), GameType::SimpleDuel, STAKE, 1000).unwrap();
    assert_eq!(cancel_game(&mut game, key(4), 1010), Err(GameError::UnauthorizedPlayer));
    assert_eq!(cancel_game(&mut game, key(3), 1010), Ok(()));
    assert_eq!(game.game_state(), GameState::Cancelled);
    assert_eq!(game.pot_total, STAKE);
    // A cancelled game cannot be cancelled again.
    assert_eq!(cancel_game(&mut game, key(3), 1020), Err(GameError::InvalidGameState));
}

#[test]
fn join_rejects_pot_overflow() {
    let mut config = initialize_config(key(1), key(2));
    let mut game = create_game(&mut config, key(3), GameType::SimpleDuel, STAKE, 1000).unwrap();
    game.pot_total = u64::MAX;
    assert_eq!(join_game(&mut game, key(4), 1010), Err(GameError::ArithmeticOverflow));
    assert_eq!(game.players.len(), 1);
    assert_eq!(game.pot_total, u64::MAX);
}

#[test]
fn force_finish_rejects_clock_behind_last_action() {
    let mut config = initialize_config(key(1), key(2));
    let mut game = create_game(&mut config, key(3), GameType::SimpleDuel, STAKE, 50_000).unwrap();
    assert_eq!(force_finish(&mut game, &config, 100), Err(GameError::InvalidGameState));
    assert_eq!(game.game_state(), GameState::Waiting);
}

#[test]
fn force_finish_requires_elapsed_timeout() {
    let mut config = initialize_config(key(1), key(2));
    let mut game = create_game(&mut config, key(3), GameType::SimpleDuel, STAKE, 1000).unwrap();
    assert_eq!(force_finish(&mut game, &config, 1000 + 3600), Err(GameError::InvalidGameState));
    assert_eq!(game.game_state(), GameState::Waiting);
    assert_eq!(force_finish(&mut game, &config, 1000 + 3602), Ok(()));
    assert_eq!(game.game_state(), GameState::Completed);
    assert_eq!(game.last_action_time(), 1000 + 3602);
    assert!(!game.has_winner);
}
