//! Per-player lifetime statistics, maintained by the host alongside
//! the sessions.

use vstd::prelude::*;
use crate::keys::Pubkey;

verus! {

/// Lifetime record of one player across games.
#[derive(Clone, Copy, Debug)]
pub struct PlayerAccount {
    /// Owner of this player record.
    pub owner: Pubkey,
    /// Total games played.
    pub games_played: u32,
    /// Total wins.
    pub wins: u32,
    /// Total losses.
    pub losses: u32,
    /// Total draws.
    pub draws: u32,
    /// Total amount staked lifetime.
    pub total_staked: u64,
    /// Total amount won lifetime.
    pub total_won: u64,
    /// Current win streak.
    pub win_streak: u16,
    /// Best win streak.
    pub best_streak: u16,
    /// Favourite game kind.
    pub favorite_game: u8,
    /// Last played timestamp.
    pub last_played: i64,
}

} // verus!
