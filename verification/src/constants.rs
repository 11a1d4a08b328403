//! Game limits and default configuration values.

use vstd::prelude::*;

verus! {

/// Maximum participant slots in a session (lottery cap).
pub const MAX_PLAYERS: usize = 100;
/// Capacity of the betting action log.
pub const MAX_ACTIONS: usize = 50;
/// Maximum number of bonus item prices in the configuration.
pub const MAX_ITEMS: usize = 10;
/// Default maximum number of betting rounds.
pub const MAX_ROUNDS: u8 = 10;

/// Default minimum stake in lamports (0.1 SOL).
pub const DEFAULT_MIN_STAKE: u64 = 100_000_000;
/// Default maximum stake in lamports (10 SOL).
pub const DEFAULT_MAX_STAKE: u64 = 10_000_000_000;
/// Default timeout in seconds before a session can be force-finished.
pub const DEFAULT_TIMEOUT: u64 = 3600;
/// Default platform fee percentage.
pub const DEFAULT_PLATFORM_FEE: u8 = 2;
/// Default fold/cancellation penalty percentage.
pub const DEFAULT_FOLD_PENALTY: u8 = 10;

/// Price of one lottery ticket in lamports (0.05 SOL).
pub const LOTTERY_TICKET_PRICE: u64 = 50_000_000;
/// Per-player cap on lottery tickets bought in one entry.
pub const LOTTERY_MAX_TICKETS_PER_PLAYER: u32 = 100;
/// Seconds that must elapse after the first entry before a draw.
pub const LOTTERY_DRAW_INTERVAL: i64 = 86400;

} // verus!
