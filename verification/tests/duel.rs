use universal_game::config::initialize_config;
use universal_game::errors::GameError;
use universal_game::game::{GameMove, GameState, GameType};
use universal_game::keys::Pubkey;
use universal_game::lifecycle::{create_game, join_game};
use universal_game::game_account::GameAccountOptimized;
use universal_game::simple_duel::{commit_move, commitment_hash, pack_move, reveal_move,
    serialize_move, unpack_move};

fn key(b: u8) -> Pubkey {
    Pubkey::new([b; 32])
}

const STAKE: u64 = 500_000_000;

fn active_duel() -> GameAccountOptimized {
    let mut config = initialize_config(key(1), key(2));
    let mut game = create_game(&mut config, key(3), GameType::SimpleDuel, STAKE, 1000).unwrap();
    join_game(&mut game, key(4), 1010).unwrap();
    game
}

#[test]
fn move_packing_roundtrip() {
    let moves = [
        GameMove::NoMove,
        GameMove::Rock,
        GameMove::Paper,
        GameMove::Scissors,
        GameMove::Heads,
        GameMove::Tails,
        GameMove::Number(0),
        GameMove::Number(3),
        GameMove::Number(249),
    ];
    for m in moves {
        assert_eq!(unpack_move(pack_move(m)), m);
    }
    assert_eq!(pack_move(GameMove::NoMove), 0);
    assert_eq!(pack_move(GameMove::Rock), 1);
    assert_eq!(pack_move(GameMove::Number(3)), 9);
    assert_eq!(unpack_move(9), GameMove::Number(3));
    for b in 0..=255u8 {
        assert_eq!(pack_move(unpack_move(b)), b);
    }
}

#[test]
fn serialization_layout() {
    assert_eq!(serialize_move(GameMove::Rock), vec![1u8]);
    assert_eq!(serialize_move(GameMove::Scissors), vec![3u8]);
    assert_eq!(serialize_move(GameMove::Number(7)), vec![6u8, 7u8]);
}

#[test]
fn commitment_hash_is_the_sha256_of_move_and_nonce() {
    let nonce = [9u8; 32];
    let mut data = vec![1u8];
    data.extend_from_slice(&nonce);
    let expected = solana_sha256_hasher::hash(&data).to_bytes();
    assert_eq!(commitment_hash(GameMove::Rock, &nonce), expected);
    // The digest is not the input handed back.
    assert_ne!(commitment_hash(GameMove::Rock, &nonce)[..], data[0..32]);
    // Different moves and different nonces give different commitments.
    assert_ne!(commitment_hash(GameMove::Paper, &nonce), expected);
    assert_ne!(commitment_hash(GameMove::Rock, &[8u8; 32]), expected);
}

#[test]
fn duel_happy_path_rock_beats_scissors() {
    let mut game = active_duel();
    let n1 = [11u8; 32];
    let n2 = [22u8; 32];
    commit_move(&mut game, key(3), commitment_hash(GameMove::Rock, &n1), 1020).unwrap();
    assert_eq!(game.game_state(), GameState::Active);
    commit_move(&mut game, key(4), commitment_hash(GameMove::Scissors, &n2), 1030).unwrap();
    assert_eq!(game.game_state(), GameState::Resolving);
    reveal_move(&mut game, key(3), GameMove::Rock, n1, 1040).unwrap();
    assert_eq!(game.game_state(), GameState::Resolving);
    reveal_move(&mut game, key(4), GameMove::Scissors, n2, 1050).unwrap();
    assert_eq!(game.game_state(), GameState::Completed);
    assert!(game.has_winner);
    assert_eq!(game.winner, key(3));
    assert_eq!(game.pot_total, 2 * STAKE);
}

#[test]
fn identical_moves_draw_with_no_winner() {
    let mut game = active_duel();
    let n1 = [11u8; 32];
    let n2 = [22u8; 32];
    commit_move(&mut game, key(3), commitment_hash(GameMove::Rock, &n1), 1020).unwrap();
    commit_move(&mut game, key(4), commitment_hash(GameMove::Rock, &n2), 1030).unwrap();
    reveal_move(&mut game, key(3), GameMove::Rock, n1, 1040).unwrap();
    reveal_move(&mut game, key(4), GameMove::Rock, n2, 1050).unwrap();
    assert_eq!(game.game_state(), GameState::Completed);
    assert!(!game.has_winner);
}

#[test]
fn paper_beats_rock_and_scissors_beats_paper() {
    for (m1, m2, first_wins) in [
        (GameMove::Paper, GameMove::Rock, true),
        (GameMove::Scissors, GameMove::Paper, true),
        (GameMove::Rock, GameMove::Paper, false),
        (GameMove::Paper, GameMove::Scissors, false),
        (GameMove::Scissors, GameMove::Rock, false),
    ] {
        let mut game = active_duel();
        let n1 = [11u8; 32];
        let n2 = [22u8; 32];
        commit_move(&mut game, key(3), commitment_hash(m1, &n1), 1020).unwrap();
        commit_move(&mut game, key(4), commitment_hash(m2, &n2), 1030).unwrap();
        reveal_move(&mut game, key(3), m1, n1, 1040).unwrap();
        reveal_move(&mut game, key(4), m2, n2, 1050).unwrap();
        assert!(game.has_winner);
        assert_eq!(game.winner, if first_wins { key(3) } else { key(4) });
    }
}

#[test]
fn commit_rejects_wrong_state_kind_player_and_resubmission() {
    let mut config = initialize_config(key(1), key(2));
    let mut waiting = create_game(&mut config, key(3), GameType::SimpleDuel, STAKE, 1000).unwrap();
    let hash = commitment_hash(GameMove::Rock, &[1u8; 32]);
    assert_eq!(commit_move(&mut waiting, key(3), hash, 1010), Err(GameError::InvalidGameState));

    let mut betting = create_game(&mut config, key(3), GameType::MultiRound, STAKE, 1000).unwrap();
    join_game(&mut betting, key(4), 1010).unwrap();
    assert_eq!(commit_move(&mut betting, key(3), hash, 1020), Err(GameError::InvalidGameType));

    let mut game = active_duel();
    assert_eq!(commit_move(&mut game, key(9), hash, 1020), Err(GameError::UnauthorizedPlayer));
    commit_move(&mut game, key(3), hash, 1020).unwrap();
    assert_eq!(
        commit_move(&mut game, key(3), hash, 1030),
        Err(GameError::MoveAlreadySubmitted)
    );
}

#[test]
fn mismatched_reveal_always_fails_with_invalid_reveal() {
    let mut game = active_duel();
    let n1 = [11u8; 32];
    let n2 = [22u8; 32];
    commit_move(&mut game, key(3), commitment_hash(GameMove::Rock, &n1), 1020).unwrap();
    commit_move(&mut game, key(4), commitment_hash(GameMove::Scissors, &n2), 1030).unwrap();
    // Wrong move under the right nonce.
    assert_eq!(
        reveal_move(&mut game, key(3), GameMove::Paper, n1, 1040),
        Err(GameError::InvalidReveal)
    );
    // Right move under a wrong nonce.
    assert_eq!(
        reveal_move(&mut game, key(3), GameMove::Rock, n2, 1040),
        Err(GameError::InvalidReveal)
    );
    // The state is untouched by the failed attempts.
    assert_eq!(game.game_state(), GameState::Resolving);
    assert_eq!(game.reveals_packed, vec![0u8, 0u8]);
    // The matching pair still succeeds afterwards.
    assert_eq!(reveal_move(&mut game, key(3), GameMove::Rock, n1, 1050), Ok(()));
}

#[test]
fn reveal_rejects_wrong_state_and_stranger() {
    let mut game = active_duel();
    let n1 = [11u8; 32];
    assert_eq!(
        reveal_move(&mut game, key(3), GameMove::Rock, n1, 1020),
        Err(GameError::InvalidGameState)
    );
    commit_move(&mut game, key(3), commitment_hash(GameMove::Rock, &n1), 1020).unwrap();
    commit_move(&mut game, key(4), commitment_hash(GameMove::Rock, &n1), 1030).unwrap();
    assert_eq!(
        reveal_move(&mut game, key(9), GameMove::Rock, n1, 1040),
        Err(GameError::UnauthorizedPlayer)
    );
}
