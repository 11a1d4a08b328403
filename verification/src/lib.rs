//! A wagering-game settlement engine: short-lived game sessions
//! (commit-reveal duels, multi-round betting duels, pooled lotteries)
//! in which players lock funds into a shared pot and a deterministic,
//! verified protocol decides how the pot is redistributed.
//!
//! The library is pure state-machine and settlement logic. The host
//! environment owns persistent storage, the atomic fund-transfer
//! primitive, caller-signature verification, the clock and the
//! randomness oracle; every operation here takes those inputs as plain
//! values and returns the amounts the host must move.

pub mod constants;
pub mod errors;
pub mod keys;
pub mod game;
pub mod game_account;
pub mod sums;
pub mod config;
pub mod lifecycle;
pub mod hashing;
pub mod simple_duel;
pub mod multi_round;
pub mod treasury;
pub mod vrf;
pub mod lottery;
pub mod laws;
pub mod events;
pub mod player;
