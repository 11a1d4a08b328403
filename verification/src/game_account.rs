//! The packed session record.
//!
//! Game kind and lifecycle state share one byte (low nibble: kind,
//! high nibble: state); current and maximum round share one byte the
//! same way; the two timestamps share one 64-bit field (low 32 bits:
//! start time, high 32 bits: last action time). Storing seconds in 32
//! bits imposes a year-2106 wraparound boundary: a known limitation of
//! the representation, not silently handled here. Boolean state lives
//! in a bit-flag set with named positions.
//!
//! Decoding is total: every byte value maps to a defined variant,
//! unknown values fall back to a safe default, and unpacking never
//! fails.

use vstd::prelude::*;
use crate::constants::{MAX_ACTIONS, MAX_PLAYERS};
use crate::game::{GameState, GameType};
use crate::keys::Pubkey;
use crate::sums::sum_all;

verus! {

/// Flag position: the session has been resolved.
pub const FLAG_IS_RESOLVED: u8 = 0;
/// Flag position: platform fees have been distributed (monotonic).
pub const FLAG_FEES_DISTRIBUTED: u8 = 1;
/// Flag position: the session uses external verifiable randomness.
pub const FLAG_USES_VRF: u8 = 2;
/// Flag position: the session has a timeout.
pub const FLAG_HAS_TIMEOUT: u8 = 3;
/// Flag position: the session auto-resolves.
pub const FLAG_AUTO_RESOLVE: u8 = 4;

/// Total decoding of the kind nibble; unknown values fall back to
/// `SimpleDuel`.
pub open spec fn decode_game_type(b: u8) -> GameType {
    let t = b & 0x0F;
    if t == 0 {
        GameType::SimpleDuel
    } else if t == 1 {
        GameType::MultiRound
    } else if t == 2 {
        GameType::Lottery
    } else {
        GameType::SimpleDuel
    }
}

/// The kind nibble written by `set_type_and_state`.
pub open spec fn encode_game_type(t: GameType) -> u8 {
    match t {
        GameType::SimpleDuel => 0,
        GameType::MultiRound => 1,
        GameType::Lottery => 2,
    }
}

/// Total decoding of the state nibble; unknown values fall back to
/// `Waiting`.
pub open spec fn decode_game_state(b: u8) -> GameState {
    let s = (b >> 4) & 0x0F;
    if s == 0 {
        GameState::Waiting
    } else if s == 1 {
        GameState::Active
    } else if s == 2 {
        GameState::Resolving
    } else if s == 3 {
        GameState::Completed
    } else if s == 4 {
        GameState::Cancelled
    } else {
        GameState::Waiting
    }
}

/// The state nibble written by `set_type_and_state`.
pub open spec fn encode_game_state(s: GameState) -> u8 {
    match s {
        GameState::Waiting => 0,
        GameState::Active => 1,
        GameState::Resolving => 2,
        GameState::Completed => 3,
        GameState::Cancelled => 4,
    }
}

/// Both round nibbles always decode to a value below 16.
pub proof fn lemma_round_nibbles(r: u8)
    by (bit_vector)
    ensures
        r & 0x0F < 16,
        (r >> 4) & 0x0F < 16,
{
}

/// Masking to a nibble keeps values below 16 unchanged.
pub proof fn lemma_nibble_identity(x: u8)
    by (bit_vector)
    requires
        x < 16,
    ensures
        x & 0x0F == x,
{
}

/// One game session: participants, stakes, pot, protocol state.
///
/// The participant-indexed columns (`players`, `stakes`,
/// `commit_hashes`, `reveals_packed`) are bounded growable sequences
/// that stay the same length; a slot is appended for each admitted
/// participant, up to `MAX_PLAYERS`.
#[derive(Debug)]
pub struct GameAccountOptimized {
    /// Unique game identifier.
    pub game_id: u64,
    /// Game kind and lifecycle state, packed into one byte.
    pub game_type_and_state: u8,
    /// Creator of the game.
    pub creator: Pubkey,
    /// Participant identities, one slot per admitted entry.
    pub players: Vec<Pubkey>,
    /// Stake recorded for each participant slot.
    pub stakes: Vec<u64>,
    /// Total pot amount: every lamport transferred in and not yet paid
    /// back out through settlement.
    pub pot_total: u64,
    /// Current round (low nibble) and maximum rounds (high nibble).
    pub rounds: u8,
    /// Commitment hash per slot; all-zero means "no move committed".
    pub commit_hashes: Vec<[u8; 32]>,
    /// Revealed move per slot, packed to one byte; zero means "not
    /// yet revealed".
    pub reveals_packed: Vec<u8>,
    /// Betting action log, one byte per action, capacity `MAX_ACTIONS`.
    pub action_history_packed: Vec<u8>,
    /// Winner of the game; meaningful only when `has_winner` is set.
    pub winner: Pubkey,
    /// Whether a winner has been recorded. A winner in slot 0 must
    /// never be confused with "no winner", so this marker is explicit.
    pub has_winner: bool,
    /// Raw randomness result from the oracle, if any.
    pub vrf_result: [u8; 32],
    /// Start time (low 32 bits) and last action time (high 32 bits),
    /// seconds since the epoch. Wraps around in the year 2106.
    pub timestamps: u64,
    /// Entry fee each joining player must stake.
    pub entry_fee: u64,
    /// Platform fee collected so far.
    pub platform_fee_collected: u64,
    /// Treasury identity for fee collection.
    pub treasury: Pubkey,
    /// Bit-flag set; see the `FLAG_` constants.
    pub flags: u8,
}

impl GameAccountOptimized {
    /// The decoded game kind.
    pub open spec fn spec_game_type(self) -> GameType {
        decode_game_type(self.game_type_and_state)
    }

    /// The decoded lifecycle state.
    pub open spec fn spec_game_state(self) -> GameState {
        decode_game_state(self.game_type_and_state)
    }

    /// The decoded current round.
    pub open spec fn spec_current_round(self) -> u8 {
        self.rounds & 0x0F
    }

    /// The decoded maximum round.
    pub open spec fn spec_max_rounds(self) -> u8 {
        (self.rounds >> 4) & 0x0F
    }

    /// The decoded start time.
    pub open spec fn spec_start_time(self) -> u32 {
        (self.timestamps & 0xFFFF_FFFF) as u32
    }

    /// The decoded last-action time.
    pub open spec fn spec_last_action_time(self) -> u32 {
        ((self.timestamps >> 32) & 0xFFFF_FFFF) as u32
    }

    /// Whether the given flag bit is set.
    pub open spec fn spec_get_flag(self, bit: u8) -> bool {
        self.flags & (1u8 << bit) != 0
    }

    /// Well-formedness of a session record:
    /// the participant columns are parallel and bounded; the recorded
    /// stakes are fully backed by the pot; duels hold at most two
    /// players, and exactly two once running; the round counter never
    /// exceeds the bound while the session is active.
    pub open spec fn wf(self) -> bool {
        &&& self.stakes@.len() == self.players@.len()
        &&& self.commit_hashes@.len() == self.players@.len()
        &&& self.reveals_packed@.len() == self.players@.len()
        &&& self.players@.len() <= MAX_PLAYERS as int
        &&& self.action_history_packed@.len() <= MAX_ACTIONS as int
        &&& sum_all(self.stakes@) <= self.pot_total
        &&& 1 <= self.spec_max_rounds()
        &&& (self.spec_game_type() != GameType::Lottery ==> self.players@.len() <= 2)
        &&& ((self.spec_game_type() != GameType::Lottery && (self.spec_game_state()
            == GameState::Active || self.spec_game_state() == GameState::Resolving))
            ==> self.players@.len() == 2)
        &&& ((self.spec_game_state() == GameState::Waiting || self.spec_game_state()
            == GameState::Active) ==> self.spec_current_round() <= self.spec_max_rounds())
    }

    /// Unpack the game kind from the packed byte.
    pub fn game_type(&self) -> (t: GameType)
        ensures
            t == self.spec_game_type(),
    {
        let nibble = self.game_type_and_state & 0x0F;
        match nibble {
            0 => GameType::SimpleDuel,
            1 => GameType::MultiRound,
            2 => GameType::Lottery,
            _ => GameType::SimpleDuel,
        }
    }

    /// Unpack the lifecycle state from the packed byte.
    pub fn game_state(&self) -> (s: GameState)
        ensures
            s == self.spec_game_state(),
    {
        let nibble = (self.game_type_and_state >> 4) & 0x0F;
        match nibble {
            0 => GameState::Waiting,
            1 => GameState::Active,
            2 => GameState::Resolving,
            3 => GameState::Completed,
            4 => GameState::Cancelled,
            _ => GameState::Waiting,
        }
    }

    /// Pack game kind and lifecycle state into the shared byte.
    /// Packing then unpacking is lossless for every kind and state.
    pub fn set_type_and_state(&mut self, game_type: GameType, state: GameState)
        ensures
            *final(self) == (GameAccountOptimized {
                game_type_and_state: encode_game_type(game_type) | (encode_game_state(state) << 4),
                ..*old(self)
            }),
            final(self).spec_game_type() == game_type,
            final(self).spec_game_state() == state,
    {
        let type_bits: u8 = match game_type {
            GameType::SimpleDuel => 0,
            GameType::MultiRound => 1,
            GameType::Lottery => 2,
        };
        let state_bits: u8 = match state {
            GameState::Waiting => 0,
            GameState::Active => 1,
            GameState::Resolving => 2,
            GameState::Completed => 3,
            GameState::Cancelled => 4,
        };
        proof {
            assert((type_bits | (state_bits << 4)) & 0x0F == type_bits) by (bit_vector)
                requires
                    type_bits < 3u8,
                    state_bits < 5u8,
            ;
            assert(((type_bits | (state_bits << 4)) >> 4) & 0x0F == state_bits) by (bit_vector)
                requires
                    type_bits < 3u8,
                    state_bits < 5u8,
            ;
        }
        self.game_type_and_state = type_bits | (state_bits << 4);
    }

    /// Unpack the current round from the packed byte.
    pub fn current_round(&self) -> (r: u8)
        ensures
            r == self.spec_current_round(),
    {
        self.rounds & 0x0F
    }

    /// Unpack the maximum round from the packed byte.
    pub fn max_rounds(&self) -> (r: u8)
        ensures
            r == self.spec_max_rounds(),
    {
        (self.rounds >> 4) & 0x0F
    }

    /// Pack current and maximum round into the shared byte. Values are
    /// masked to their nibble; for values up to 15 the packing is
    /// lossless.
    pub fn set_rounds(&mut self, current: u8, max: u8)
        ensures
            *final(self) == (GameAccountOptimized {
                rounds: (current & 0x0F) | ((max & 0x0F) << 4),
                ..*old(self)
            }),
            final(self).spec_current_round() == current & 0x0F,
            final(self).spec_max_rounds() == max & 0x0F,
    {
        proof {
            assert(((current & 0x0F) | ((max & 0x0F) << 4)) & 0x0F == current & 0x0F)
                by (bit_vector);
            assert((((current & 0x0F) | ((max & 0x0F) << 4)) >> 4) & 0x0F == max & 0x0F)
                by (bit_vector);
        }
        self.rounds = (current & 0x0F) | ((max & 0x0F) << 4);
    }

    /// Unpack the start time from the packed field.
    pub fn start_time(&self) -> (t: u32)
        ensures
            t == self.spec_start_time(),
    {
        (self.timestamps & 0xFFFF_FFFF) as u32
    }

    /// Unpack the last-action time from the packed field.
    pub fn last_action_time(&self) -> (t: u32)
        ensures
            t == self.spec_last_action_time(),
    {
        ((self.timestamps >> 32) & 0xFFFF_FFFF) as u32
    }

    /// Pack the two timestamps into the shared 64-bit field; lossless
    /// for every pair of 32-bit times.
    pub fn set_timestamps(&mut self, start: u32, last_action: u32)
        ensures
            *final(self) == (GameAccountOptimized {
                timestamps: (start as u64) | ((last_action as u64) << 32),
                ..*old(self)
            }),
            final(self).spec_start_time() == start,
            final(self).spec_last_action_time() == last_action,
    {
        proof {
            assert((((start as u64) | ((last_action as u64) << 32)) & 0xFFFF_FFFFu64) as u32
                == start) by (bit_vector);
            assert(((((start as u64) | ((last_action as u64) << 32)) >> 32) & 0xFFFF_FFFFu64)
                as u32 == last_action) by (bit_vector);
        }
        self.timestamps = (start as u64) | ((last_action as u64) << 32);
    }

    /// Read one flag bit.
    pub fn get_flag(&self, bit: u8) -> (r: bool)
        requires
            bit < 8,
        ensures
            r == self.spec_get_flag(bit),
    {
        (self.flags & (1u8 << bit)) != 0
    }

    /// Write one flag bit, leaving every other bit unchanged.
    pub fn set_flag(&mut self, bit: u8, value: bool)
        requires
            bit < 8,
        ensures
            *final(self) == (GameAccountOptimized { flags: final(self).flags, ..*old(self) }),
            final(self).spec_get_flag(bit) == value,
            forall|o: u8| o < 8 && o != bit ==> final(self).spec_get_flag(o)
                == old(self).spec_get_flag(o),
    {
        if value {
            let new_flags = self.flags | (1u8 << bit);
            proof {
                let f = self.flags;
                let b = bit;
                assert((f | (1u8 << b)) & (1u8 << b) != 0) by (bit_vector)
                    requires b < 8u8,
                ;
                assert(forall|o: u8| o < 8 && o != b ==> ((f | (1u8 << b)) & (1u8 << o))
                    == (f & (1u8 << o))) by (bit_vector)
                    requires b < 8u8,
                ;
            }
            self.flags = new_flags;
        } else {
            let new_flags = self.flags & !(1u8 << bit);
            proof {
                let f = self.flags;
                let b = bit;
                assert((f & !(1u8 << b)) & (1u8 << b) == 0) by (bit_vector)
                    requires b < 8u8,
                ;
                assert(forall|o: u8| o < 8 && o != b ==> ((f & !(1u8 << b)) & (1u8 << o))
                    == (f & (1u8 << o))) by (bit_vector)
                    requires b < 8u8,
                ;
            }
            self.flags = new_flags;
        }
    }

    /// Number of admitted participant slots.
    pub fn player_count(&self) -> (n: usize)
        ensures
            n == self.players@.len(),
    {
        self.players.len()
    }
}

impl Default for GameAccountOptimized {
    /// An empty session: no players, zero pot, `SimpleDuel` kind and
    /// `Waiting` state (the zero byte), all counters and flags zero.
    fn default() -> (r: Self)
        ensures
            r.game_id == 0,
            r.game_type_and_state == 0,
            r.players@.len() == 0,
            r.stakes@.len() == 0,
            r.commit_hashes@.len() == 0,
            r.reveals_packed@.len() == 0,
            r.action_history_packed@.len() == 0,
            r.pot_total == 0,
            r.rounds == 0,
            !r.has_winner,
            r.timestamps == 0,
            r.entry_fee == 0,
            r.platform_fee_collected == 0,
            r.flags == 0,
            r.spec_game_type() == GameType::SimpleDuel,
            r.spec_game_state() == GameState::Waiting,
    {
        proof {
            assert(0u8 & 0x0F == 0u8) by (bit_vector);
            assert((0u8 >> 4) & 0x0F == 0u8) by (bit_vector);
        }
        GameAccountOptimized {
            game_id: 0,
            game_type_and_state: 0,
            creator: Pubkey { bytes: [0u8; 32] },
            players: Vec::new(),
            stakes: Vec::new(),
            pot_total: 0,
            rounds: 0,
            commit_hashes: Vec::new(),
            reveals_packed: Vec::new(),
            action_history_packed: Vec::new(),
            winner: Pubkey { bytes: [0u8; 32] },
            has_winner: false,
            vrf_result: [0u8; 32],
            timestamps: 0,
            entry_fee: 0,
            platform_fee_collected: 0,
            treasury: Pubkey { bytes: [0u8; 32] },
            flags: 0,
        }
    }
}

} // verus!
