//! Commit-reveal protocol for simple duels.
//!
//! Two-phase binding scheme preventing move-sniping: each player first
//! commits the SHA-256 hash of their serialized move followed by a
//! 32-byte nonce, and may later reveal only a (move, nonce) pair that
//! hashes back to the stored commitment. A stored all-zero hash means
//! "no move committed yet"; a packed reveal byte of zero means "not
//! yet revealed".

use vstd::prelude::*;
use crate::errors::GameError;
use crate::game::{GameMove, GameState, GameType};
use crate::game_account::GameAccountOptimized;
use crate::hashing::{sha256, sha256_of};
use crate::keys::{bytes32_eq, bytes32_is_zero, contains_key, find_player, is_zero32, key_index,
    Pubkey};

verus! {

/// The single byte a revealed move is stored as; zero is reserved for
/// "not yet revealed", so `NoMove` packs to zero.
pub open spec fn spec_pack_move(m: GameMove) -> u8 {
    match m {
        GameMove::NoMove => 0,
        GameMove::Rock => 1,
        GameMove::Paper => 2,
        GameMove::Scissors => 3,
        GameMove::Heads => 4,
        GameMove::Tails => 5,
        GameMove::Number(n) => (6 + n) as u8,
    }
}

/// Total decoding of a packed move byte.
pub open spec fn spec_unpack_move(b: u8) -> GameMove {
    if b == 0 {
        GameMove::NoMove
    } else if b == 1 {
        GameMove::Rock
    } else if b == 2 {
        GameMove::Paper
    } else if b == 3 {
        GameMove::Scissors
    } else if b == 4 {
        GameMove::Heads
    } else if b == 5 {
        GameMove::Tails
    } else {
        GameMove::Number((b - 6) as u8)
    }
}

/// Packing then unpacking a move is lossless (numbers above 249 would
/// not fit beside the six named moves and are excluded).
pub proof fn lemma_move_roundtrip(m: GameMove)
    requires
        m matches GameMove::Number(n) ==> n <= 249,
    ensures
        spec_unpack_move(spec_pack_move(m)) == m,
{
}

/// Unpacking then packing a byte is the identity, so the packed form
/// is a faithful representation of every byte value.
pub proof fn lemma_move_byte_roundtrip(b: u8)
    ensures
        spec_pack_move(spec_unpack_move(b)) == b,
{
}

/// Packs a move into its storage byte.
pub fn pack_move(m: GameMove) -> (r: u8)
    requires
        m matches GameMove::Number(n) ==> n <= 249,
    ensures
        r == spec_pack_move(m),
{
    match m {
        GameMove::NoMove => 0,
        GameMove::Rock => 1,
        GameMove::Paper => 2,
        GameMove::Scissors => 3,
        GameMove::Heads => 4,
        GameMove::Tails => 5,
        GameMove::Number(n) => 6 + n,
    }
}

/// Unpacks a storage byte into a move; total, never fails.
pub fn unpack_move(byte: u8) -> (r: GameMove)
    ensures
        r == spec_unpack_move(byte),
{
    match byte {
        0 => GameMove::NoMove,
        1 => GameMove::Rock,
        2 => GameMove::Paper,
        3 => GameMove::Scissors,
        4 => GameMove::Heads,
        5 => GameMove::Tails,
        n => GameMove::Number(n - 6),
    }
}

/// The byte layout the host's serializer gives a move: the variant
/// index as one byte, followed by the payload byte for numbers.
pub open spec fn spec_serialize_move(m: GameMove) -> Seq<u8> {
    match m {
        GameMove::NoMove => seq![0u8],
        GameMove::Rock => seq![1u8],
        GameMove::Paper => seq![2u8],
        GameMove::Scissors => seq![3u8],
        GameMove::Heads => seq![4u8],
        GameMove::Tails => seq![5u8],
        GameMove::Number(n) => seq![6u8, n],
    }
}

/// Serializes a move for hashing.
pub fn serialize_move(m: GameMove) -> (r: Vec<u8>)
    ensures
        r@ == spec_serialize_move(m),
{
    let mut v: Vec<u8> = Vec::new();
    match m {
        GameMove::NoMove => v.push(0),
        GameMove::Rock => v.push(1),
        GameMove::Paper => v.push(2),
        GameMove::Scissors => v.push(3),
        GameMove::Heads => v.push(4),
        GameMove::Tails => v.push(5),
        GameMove::Number(n) => {
            v.push(6);
            v.push(n);
        },
    }
    proof {
        assert(v@ =~= spec_serialize_move(m));
    }
    v
}

/// The bytes whose SHA-256 digest a player commits to: the serialized
/// move followed by the nonce.
pub open spec fn commitment_data(m: GameMove, nonce: Seq<u8>) -> Seq<u8> {
    spec_serialize_move(m) + nonce
}

/// Whether a revealed (move, nonce) pair matches a stored commitment.
pub open spec fn reveal_matches(commit: [u8; 32], m: GameMove, nonce: Seq<u8>) -> bool {
    sha256_of(commitment_data(m, nonce)) == commit@
}

/// Computes the commitment hash a player submits in the commit phase.
pub fn commitment_hash(game_move: GameMove, nonce: &[u8; 32]) -> (r: [u8; 32])
    ensures
        r@ == sha256_of(commitment_data(game_move, nonce@)),
{
    let mut data = serialize_move(game_move);
    let ghost prefix = data@;
    let mut i: usize = 0;
    proof {
        assert(data@ =~= prefix + nonce@.subrange(0, 0));
    }
    while i < 32
        invariant
            i <= 32,
            prefix == spec_serialize_move(game_move),
            data@ == prefix + nonce@.subrange(0, i as int),
        decreases 32 - i,
    {
        data.push(nonce[i]);
        proof {
            assert(prefix + nonce@.subrange(0, (i + 1) as int) =~= (prefix + nonce@.subrange(
                0,
                i as int,
            )).push(nonce@[i as int]));
        }
        i += 1;
    }
    proof {
        assert(nonce@.subrange(0, 32) =~= nonce@);
        assert(data@ =~= commitment_data(game_move, nonce@));
    }
    sha256(&data)
}

/// Whether every participant slot holds a non-zero commitment.
pub open spec fn all_committed(hashes: Seq<[u8; 32]>) -> bool {
    forall|j: int| 0 <= j < hashes.len() ==> !is_zero32(hashes[j])
}

/// Whether every participant slot holds a non-zero revealed move.
pub open spec fn all_revealed(reveals: Seq<u8>) -> bool {
    forall|j: int| 0 <= j < reveals.len() ==> reveals[j] != 0
}

/// The duel precedence table: rock beats scissors, scissors beats
/// paper, paper beats rock; identical or unrelated moves are a draw,
/// represented as no winner.
pub open spec fn duel_winner(m1: GameMove, m2: GameMove) -> Option<int> {
    if (m1 == GameMove::Rock && m2 == GameMove::Scissors) || (m1 == GameMove::Paper && m2
        == GameMove::Rock) || (m1 == GameMove::Scissors && m2 == GameMove::Paper) {
        Some(0)
    } else if (m1 == GameMove::Scissors && m2 == GameMove::Rock) || (m1 == GameMove::Rock && m2
        == GameMove::Paper) || (m1 == GameMove::Paper && m2 == GameMove::Scissors) {
        Some(1)
    } else {
        None
    }
}

/// Stores a commitment hash for `player`. Valid only while the duel
/// is `Active`; a slot can be committed once. When every slot is
/// non-zero the session moves to `Resolving`.
pub fn commit_move(
    game: &mut GameAccountOptimized,
    player: Pubkey,
    move_hash: [u8; 32],
    now: u32,
) -> (r: Result<(), GameError>)
    requires
        old(game).wf(),
    ensures
        final(game).wf(),
        match r {
            Ok(()) => {
                &&& old(game).spec_game_state() == GameState::Active
                &&& old(game).spec_game_type() == GameType::SimpleDuel
                &&& contains_key(old(game).players@, player)
                &&& is_zero32(old(game).commit_hashes@[key_index(old(game).players@, player)])
                &&& final(game).commit_hashes@ == old(game).commit_hashes@.update(
                    key_index(old(game).players@, player),
                    move_hash,
                )
                &&& *final(game) == (GameAccountOptimized {
                    game_type_and_state: final(game).game_type_and_state,
                    commit_hashes: final(game).commit_hashes,
                    timestamps: final(game).timestamps,
                    ..*old(game)
                })
                &&& final(game).spec_game_type() == GameType::SimpleDuel
                &&& final(game).spec_game_state() == (if all_committed(final(game).commit_hashes@) {
                    GameState::Resolving
                } else {
                    GameState::Active
                })
                &&& final(game).spec_start_time() == old(game).spec_start_time()
                &&& final(game).spec_last_action_time() == now
            },
            Err(e) => {
                &&& *final(game) == *old(game)
                &&& if old(game).spec_game_state() != GameState::Active {
                    e == GameError::InvalidGameState
                } else if old(game).spec_game_type() != GameType::SimpleDuel {
                    e == GameError::InvalidGameType
                } else if !contains_key(old(game).players@, player) {
                    e == GameError::UnauthorizedPlayer
                } else {
                    e == GameError::MoveAlreadySubmitted && !is_zero32(
                        old(game).commit_hashes@[key_index(old(game).players@, player)],
                    )
                }
            },
        },
{
    if game.game_state() != GameState::Active {
        return Err(GameError::InvalidGameState);
    }
    if game.game_type() != GameType::SimpleDuel {
        return Err(GameError::InvalidGameType);
    }
    let player_index = match find_player(&game.players, &player) {
        Some(i) => i,
        None => {
            return Err(GameError::UnauthorizedPlayer);
        },
    };
    if !bytes32_is_zero(&game.commit_hashes[player_index]) {
        return Err(GameError::MoveAlreadySubmitted);
    }
    game.commit_hashes.set(player_index, move_hash);
    let start = game.start_time();
    game.set_timestamps(start, now);
    let n = game.players.len();
    let mut every_slot_committed = true;
    let mut i: usize = 0;
    while i < n
        invariant
            i <= n,
            n == game.commit_hashes@.len(),
            every_slot_committed == (forall|j: int|
                0 <= j < i ==> !is_zero32(game.commit_hashes@[j])),
        decreases n - i,
    {
        if bytes32_is_zero(&game.commit_hashes[i]) {
            every_slot_committed = false;
        }
        i += 1;
    }
    if every_slot_committed {
        let gt = game.game_type();
        game.set_type_and_state(gt, GameState::Resolving);
    }
    Ok(())
}

/// Resolves a two-player duel from the unpacked reveals: applies the
/// precedence table and records the winner; a draw records no winner.
pub fn determine_winner(game: &mut GameAccountOptimized) -> (r: Result<(), GameError>)
    requires
        old(game).wf(),
    ensures
        final(game).wf(),
        match r {
            Ok(()) => {
                &&& old(game).players@.len() == 2
                &&& match duel_winner(
                    spec_unpack_move(old(game).reveals_packed@[0]),
                    spec_unpack_move(old(game).reveals_packed@[1]),
                ) {
                    Some(w) => *final(game) == (GameAccountOptimized {
                        winner: old(game).players@[w],
                        has_winner: true,
                        ..*old(game)
                    }),
                    None => *final(game) == *old(game),
                }
            },
            Err(e) => {
                &&& e == GameError::InvalidGameState
                &&& old(game).players@.len() != 2
                &&& *final(game) == *old(game)
            },
        },
{
    if game.players.len() != 2 {
        return Err(GameError::InvalidGameState);
    }
    let move1 = unpack_move(game.reveals_packed[0]);
    let move2 = unpack_move(game.reveals_packed[1]);
    let winner_index: Option<usize> = if (move1 == GameMove::Rock && move2 == GameMove::Scissors)
        || (move1 == GameMove::Paper && move2 == GameMove::Rock) || (move1 == GameMove::Scissors
        && move2 == GameMove::Paper) {
        Some(0)
    } else if (move1 == GameMove::Scissors && move2 == GameMove::Rock) || (move1 == GameMove::Rock
        && move2 == GameMove::Paper) || (move1 == GameMove::Paper && move2 == GameMove::Scissors) {
        Some(1)
    } else {
        None
    };
    if let Some(idx) = winner_index {
        game.winner = game.players[idx];
        game.has_winner = true;
    }
    Ok(())
}

/// Reveals a committed move. Valid only while `Resolving`; the pair
/// must hash back to the stored commitment, otherwise the call fails
/// with `InvalidReveal` whatever the move was. Once every slot is
/// revealed the duel is resolved and completed.
pub fn reveal_move(
    game: &mut GameAccountOptimized,
    player: Pubkey,
    game_move: GameMove,
    nonce: [u8; 32],
    now: u32,
) -> (r: Result<(), GameError>)
    requires
        old(game).wf(),
        game_move matches GameMove::Number(n) ==> n <= 249,
    ensures
        final(game).wf(),
        match r {
            Ok(()) => {
                &&& old(game).spec_game_state() == GameState::Resolving
                &&& contains_key(old(game).players@, player)
                &&& reveal_matches(
                    old(game).commit_hashes@[key_index(old(game).players@, player)],
                    game_move,
                    nonce@,
                )
                &&& final(game).reveals_packed@ == old(game).reveals_packed@.update(
                    key_index(old(game).players@, player),
                    spec_pack_move(game_move),
                )
                &&& *final(game) == (GameAccountOptimized {
                    game_type_and_state: final(game).game_type_and_state,
                    reveals_packed: final(game).reveals_packed,
                    winner: final(game).winner,
                    has_winner: final(game).has_winner,
                    timestamps: final(game).timestamps,
                    ..*old(game)
                })
                &&& final(game).spec_game_type() == old(game).spec_game_type()
                &&& final(game).spec_start_time() == old(game).spec_start_time()
                &&& final(game).spec_last_action_time() == now
                &&& if all_revealed(final(game).reveals_packed@) {
                    &&& old(game).players@.len() == 2
                    &&& final(game).spec_game_state() == GameState::Completed
                    &&& match duel_winner(
                        spec_unpack_move(final(game).reveals_packed@[0]),
                        spec_unpack_move(final(game).reveals_packed@[1]),
                    ) {
                        Some(w) => final(game).has_winner
                            && final(game).winner == old(game).players@[w],
                        None => final(game).has_winner == old(game).has_winner
                            && final(game).winner == old(game).winner,
                    }
                } else {
                    &&& final(game).spec_game_state() == GameState::Resolving
                    &&& final(game).has_winner == old(game).has_winner
                    &&& final(game).winner == old(game).winner
                }
            },
            Err(e) => {
                &&& *final(game) == *old(game)
                &&& if old(game).spec_game_state() != GameState::Resolving {
                    e == GameError::InvalidGameState
                } else if !contains_key(old(game).players@, player) {
                    e == GameError::UnauthorizedPlayer
                } else if !reveal_matches(
                    old(game).commit_hashes@[key_index(old(game).players@, player)],
                    game_move,
                    nonce@,
                ) {
                    e == GameError::InvalidReveal
                } else {
                    &&& e == GameError::InvalidGameState
                    &&& old(game).players@.len() != 2
                    &&& spec_pack_move(game_move) != 0
                    &&& (forall|j: int|
                        0 <= j < old(game).reveals_packed@.len() && j != key_index(
                            old(game).players@,
                            player,
                        ) ==> old(game).reveals_packed@[j] != 0)
                }
            },
        },
{
    if game.game_state() != GameState::Resolving {
        return Err(GameError::InvalidGameState);
    }
    let player_index = match find_player(&game.players, &player) {
        Some(i) => i,
        None => {
            return Err(GameError::UnauthorizedPlayer);
        },
    };
    let computed = commitment_hash(game_move, &nonce);
    if !bytes32_eq(&computed, &game.commit_hashes[player_index]) {
        return Err(GameError::InvalidReveal);
    }
    let move_byte = pack_move(game_move);
    let n = game.reveals_packed.len();
    let mut would_all_reveal = move_byte != 0;
    let mut i: usize = 0;
    while i < n
        invariant
            i <= n,
            n == game.reveals_packed@.len(),
            player_index < n,
            would_all_reveal == (move_byte != 0 && (forall|j: int|
                0 <= j < i && j != player_index ==> game.reveals_packed@[j] != 0)),
        decreases n - i,
    {
        if i != player_index && game.reveals_packed[i] == 0 {
            would_all_reveal = false;
        }
        i += 1;
    }
    if would_all_reveal && game.players.len() != 2 {
        return Err(GameError::InvalidGameState);
    }
    let ghost reveals_before = game.reveals_packed@;
    game.reveals_packed.set(player_index, move_byte);
    proof {
        let reveals_now = game.reveals_packed@;
        if would_all_reveal {
            assert forall|j: int| 0 <= j < reveals_now.len() implies reveals_now[j] != 0 by {
                if j != player_index {
                    assert(reveals_before[j] != 0);
                }
            }
            assert(all_revealed(reveals_now));
        } else {
            if move_byte == 0 {
                assert(reveals_now[player_index as int] == 0);
            } else {
                let j = choose|j: int|
                    0 <= j < reveals_before.len() && j != player_index && reveals_before[j] == 0;
                assert(reveals_now[j] == 0);
            }
            assert(!all_revealed(reveals_now));
        }
    }
    let start = game.start_time();
    game.set_timestamps(start, now);
    if would_all_reveal {
        match determine_winner(game) {
            Ok(()) => {},
            Err(_) => {
                proof {
                    assert(false);
                }
            },
        }
        let gt = game.game_type();
        game.set_type_and_state(gt, GameState::Completed);
        let start2 = game.start_time();
        game.set_timestamps(start2, now);
    }
    Ok(())
}

} // verus!
