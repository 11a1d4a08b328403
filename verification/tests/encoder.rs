use universal_game::game::{GameState, GameType};
use universal_game::game_account::{GameAccountOptimized, FLAG_FEES_DISTRIBUTED, FLAG_USES_VRF};
use universal_game::vrf::VrfManager;

#[test]
fn type_and_state_roundtrip_all_combinations() {
    let types = [GameType::SimpleDuel, GameType::MultiRound, GameType::Lottery];
    let states = [
        GameState::Waiting,
        GameState::Active,
        GameState::Resolving,
        GameState::Completed,
        GameState::Cancelled,
    ];
    let mut game = GameAccountOptimized::default();
    for t in types {
        for s in states {
            game.set_type_and_state(t, s);
            assert_eq!(game.game_type(), t);
            assert_eq!(game.game_state(), s);
        }
    }
}

#[test]
fn default_session_is_empty_waiting_duel() {
    let game = GameAccountOptimized::default();
    assert_eq!(game.game_type(), GameType::SimpleDuel);
    assert_eq!(game.game_state(), GameState::Waiting);
    assert_eq!(game.player_count(), 0);
    assert_eq!(game.pot_total, 0);
    assert_eq!(game.current_round(), 0);
    assert_eq!(game.max_rounds(), 0);
    assert!(!game.has_winner);
    assert_eq!(game.flags, 0);
}

#[test]
fn rounds_roundtrip() {
    let mut game = GameAccountOptimized::default();
    game.set_rounds(3, 10);
    assert_eq!(game.current_round(), 3);
    assert_eq!(game.max_rounds(), 10);
    game.set_rounds(15, 15);
    assert_eq!(game.current_round(), 15);
    assert_eq!(game.max_rounds(), 15);
}

#[test]
fn rounds_mask_to_nibble() {
    let mut game = GameAccountOptimized::default();
    game.set_rounds(20, 20);
    assert_eq!(game.current_round(), 4);
    assert_eq!(game.max_rounds(), 4);
}

#[test]
fn timestamps_roundtrip() {
    let mut game = GameAccountOptimized::default();
    game.set_timestamps(1_700_000_000, 1_700_000_555);
    assert_eq!(game.start_time(), 1_700_000_000);
    assert_eq!(game.last_action_time(), 1_700_000_555);
    game.set_timestamps(u32::MAX, 0);
    assert_eq!(game.start_time(), u32::MAX);
    assert_eq!(game.last_action_time(), 0);
}

#[test]
fn flags_set_and_clear_leave_others_alone() {
    let mut game = GameAccountOptimized::default();
    game.set_flag(FLAG_FEES_DISTRIBUTED, true);
    assert!(game.get_flag(FLAG_FEES_DISTRIBUTED));
    assert!(!game.get_flag(FLAG_USES_VRF));
    game.set_flag(FLAG_USES_VRF, true);
    assert!(game.get_flag(FLAG_FEES_DISTRIBUTED));
    assert!(game.get_flag(FLAG_USES_VRF));
    game.set_flag(FLAG_FEES_DISTRIBUTED, false);
    assert!(!game.get_flag(FLAG_FEES_DISTRIBUTED));
    assert!(game.get_flag(FLAG_USES_VRF));
    for bit in 0..8u8 {
        let mut g = GameAccountOptimized::default();
        g.set_flag(bit, true);
        for other in 0..8u8 {
            assert_eq!(g.get_flag(other), other == bit);
        }
    }
}

#[test]
fn bytes_to_u64_reads_little_endian() {
    let mut bytes = [0u8; 32];
    bytes[0] = 1;
    assert_eq!(VrfManager::bytes_to_u64(&bytes), 1);
    let mut bytes = [0u8; 32];
    bytes[0] = 0x78;
    bytes[1] = 0x56;
    bytes[2] = 0x34;
    bytes[3] = 0x12;
    assert_eq!(VrfManager::bytes_to_u64(&bytes), 0x12345678);
    let mut bytes = [0xFFu8; 32];
    bytes[8] = 0;
    assert_eq!(VrfManager::bytes_to_u64(&bytes), u64::MAX);
}

#[test]
fn simple_randomness_matches_keccak_digest() {
    let mut game = GameAccountOptimized::default();
    game.game_id = 42;
    game.set_timestamps(1000, 2000);
    let blockhash = [7u8; 32];

    let mut data = Vec::new();
    data.extend_from_slice(&game.game_id.to_le_bytes());
    data.extend_from_slice(&blockhash);
    data.extend_from_slice(&game.timestamps.to_le_bytes());
    let digest = solana_keccak_hasher::hash(&data).to_bytes();
    let expected = u64::from_le_bytes(digest[0..8].try_into().unwrap());

    assert_eq!(VrfManager::generate_simple_randomness(&game, &blockhash), expected);
    assert_ne!(VrfManager::generate_simple_randomness(&game, &blockhash), game.game_id);
}
