//! Randomness integration: ticket-weighted winner selection over an
//! externally supplied random value, and the documented fallback that
//! derives a value from session data and a recent block hash.
//!
//! The fallback is weaker than a verifiable oracle: its inputs are
//! predictable to a sufficiently motivated party, so it is acceptable
//! only for low-stakes or trusted-oracle deployments.

use vstd::prelude::*;
use crate::errors::GameError;
use crate::game_account::GameAccountOptimized;
use crate::hashing::{keccak256, keccak256_of};
use crate::keys::Pubkey;
use crate::sums::{lemma_sum_prefix_mono, sum_all, sum_prefix};

verus! {

/// Manager for randomness-driven resolution.
pub struct VrfManager;

/// The first eight bytes of a 32-byte value read as a little-endian
/// 64-bit integer.
pub open spec fn spec_bytes_to_u64(b: Seq<u8>) -> int {
    b[0] + b[1] * 0x100 + b[2] * 0x1_0000 + b[3] * 0x100_0000 + b[4] * 0x1_0000_0000 + b[5]
        * 0x100_0000_0000 + b[6] * 0x1_0000_0000_0000 + b[7] * 0x100_0000_0000_0000
}

/// A 64-bit value as its eight little-endian bytes.
pub open spec fn u64_le_bytes(x: u64) -> Seq<u8> {
    seq![
        x as u8,
        (x >> 8) as u8,
        (x >> 16) as u8,
        (x >> 24) as u8,
        (x >> 32) as u8,
        (x >> 40) as u8,
        (x >> 48) as u8,
        (x >> 56) as u8,
    ]
}

/// The bytes the fallback randomness derives its digest from: the
/// game identifier, a recent block hash, and the packed timestamps.
pub open spec fn randomness_seed(game_id: u64, blockhash: Seq<u8>, timestamps: u64) -> Seq<u8> {
    u64_le_bytes(game_id) + blockhash + u64_le_bytes(timestamps)
}

impl VrfManager {
    /// Selects the lottery winner from a random value, weighted by
    /// stake: the random value is reduced modulo the total of all
    /// stakes, and the winning slot is the one whose cumulative stake
    /// range contains the reduced ticket. Win probability is thereby
    /// proportional to the stake held, not uniform over slots.
    pub fn select_lottery_winner(game: &GameAccountOptimized, randomness: u64) -> (r: Result<
        (usize, Pubkey),
        GameError,
    >)
        requires
            game.wf(),
        ensures
            match r {
                Ok(winner) => {
                    &&& sum_all(game.stakes@) > 0
                    &&& 0 <= winner.0 < game.players@.len()
                    &&& winner.1 == game.players@[winner.0 as int]
                    &&& sum_prefix(game.stakes@, winner.0 as int) <= randomness % (sum_all(
                        game.stakes@,
                    ) as u64)
                    &&& randomness % (sum_all(game.stakes@) as u64) < sum_prefix(
                        game.stakes@,
                        winner.0 + 1,
                    )
                },
                Err(e) => {
                    &&& e == GameError::NoLotteryParticipants
                    &&& sum_all(game.stakes@) == 0
                },
            },
    {
        let n = game.stakes.len();
        let mut total_tickets: u64 = 0;
        let mut i: usize = 0;
        while i < n
            invariant
                i <= n,
                n == game.stakes@.len(),
                game.wf(),
                total_tickets == sum_prefix(game.stakes@, i as int),
            decreases n - i,
        {
            proof {
                lemma_sum_prefix_mono(game.stakes@, (i + 1) as int, n as int);
            }
            total_tickets = total_tickets + game.stakes[i];
            i += 1;
        }
        if total_tickets == 0 {
            return Err(GameError::NoLotteryParticipants);
        }
        let winning_ticket = randomness % total_tickets;
        let mut accumulated_tickets: u64 = 0;
        let mut j: usize = 0;
        while j < n
            invariant
                j <= n,
                n == game.stakes@.len(),
                n == game.players@.len(),
                game.wf(),
                total_tickets == sum_all(game.stakes@),
                winning_ticket == randomness % total_tickets,
                winning_ticket < total_tickets,
                accumulated_tickets == sum_prefix(game.stakes@, j as int),
                winning_ticket >= accumulated_tickets,
            decreases n - j,
        {
            proof {
                lemma_sum_prefix_mono(game.stakes@, (j + 1) as int, n as int);
            }
            accumulated_tickets = accumulated_tickets + game.stakes[j];
            if winning_ticket < accumulated_tickets {
                return Ok((j, game.players[j]));
            }
            j += 1;
        }
        // Unreachable: the reduced ticket always falls inside some
        // cumulative range, since it is below the stake total.
        proof {
            assert(false);
        }
        Ok(((n - 1) as usize, game.players[n - 1]))
    }

    /// Reads the first eight bytes of a randomness result as a
    /// little-endian 64-bit value.
    pub fn bytes_to_u64(bytes: &[u8; 32]) -> (r: u64)
        ensures
            r == spec_bytes_to_u64(bytes@),
    {
        let b0 = bytes[0] as u64;
        let b1 = bytes[1] as u64;
        let b2 = bytes[2] as u64;
        let b3 = bytes[3] as u64;
        let b4 = bytes[4] as u64;
        let b5 = bytes[5] as u64;
        let b6 = bytes[6] as u64;
        let b7 = bytes[7] as u64;
        let r = b0 | (b1 << 8) | (b2 << 16) | (b3 << 24) | (b4 << 32) | (b5 << 40) | (b6 << 48)
            | (b7 << 56);
        proof {
            assert(b0 | (b1 << 8) | (b2 << 16) | (b3 << 24) | (b4 << 32) | (b5 << 40) | (
            b6 << 48) | (b7 << 56) == b0 + b1 * 0x100 + b2 * 0x1_0000 + b3 * 0x100_0000 + b4
                * 0x1_0000_0000 + b5 * 0x100_0000_0000 + b6 * 0x1_0000_0000_0000 + b7
                * 0x100_0000_0000_0000) by (bit_vector)
                requires
                    b0 < 0x100u64 && b1 < 0x100u64 && b2 < 0x100u64 && b3 < 0x100u64 && b4
                        < 0x100u64 && b5 < 0x100u64 && b6 < 0x100u64 && b7 < 0x100u64,
            ;
        }
        r
    }

    /// Derives the fallback randomness for a session: the Keccak-256
    /// digest of the game identifier, a recent block hash and the
    /// session timestamps, read as a little-endian 64-bit value.
    pub fn generate_simple_randomness(
        game: &GameAccountOptimized,
        recent_blockhash: &[u8; 32],
    ) -> (r: u64)
        ensures
            r == spec_bytes_to_u64(
                keccak256_of(randomness_seed(game.game_id, recent_blockhash@, game.timestamps)),
            ),
    {
        let mut data: Vec<u8> = Vec::new();
        push_u64_le(&mut data, game.game_id);
        let ghost after_id = data@;
        let mut i: usize = 0;
        while i < 32
            invariant
                i <= 32,
                after_id == u64_le_bytes(game.game_id),
                data@ == after_id + recent_blockhash@.subrange(0, i as int),
            decreases 32 - i,
        {
            data.push(recent_blockhash[i]);
            proof {
                assert(after_id + recent_blockhash@.subrange(0, (i + 1) as int) =~= (after_id
                    + recent_blockhash@.subrange(0, i as int)).push(recent_blockhash@[i as int]));
            }
            i += 1;
        }
        proof {
            assert(recent_blockhash@.subrange(0, 32) =~= recent_blockhash@);
        }
        push_u64_le(&mut data, game.timestamps);
        proof {
            assert(data@ =~= randomness_seed(game.game_id, recent_blockhash@, game.timestamps));
        }
        let digest = keccak256(&data);
        Self::bytes_to_u64(&digest)
    }
}

/// Appends the eight little-endian bytes of `x`.
fn push_u64_le(data: &mut Vec<u8>, x: u64)
    ensures
        final(data)@ == old(data)@ + u64_le_bytes(x),
{
    data.push(x as u8);
    data.push((x >> 8) as u8);
    data.push((x >> 16) as u8);
    data.push((x >> 24) as u8);
    data.push((x >> 32) as u8);
    data.push((x >> 40) as u8);
    data.push((x >> 48) as u8);
    data.push((x >> 56) as u8);
    proof {
        assert(data@ =~= old(data)@ + u64_le_bytes(x));
    }
}

} // verus!
