//! Lifecycle and settlement events.
//!
//! The engine's operations are pure; after each successful mutation
//! the host emits one of these records for external observers, filled
//! from the operation's inputs and results.

use vstd::prelude::*;
use crate::game::{BetAction, GameMove, GameState, GameType};
use crate::keys::Pubkey;

verus! {

/// A new game was created.
#[derive(Clone, Copy, Debug)]
pub struct GameCreated {
    pub game_id: u64,
    pub game_type: GameType,
    pub creator: Pubkey,
    pub stake_amount: u64,
    pub max_players: u8,
    pub timestamp: i64,
}

/// A player joined a game.
#[derive(Clone, Copy, Debug)]
pub struct PlayerJoined {
    pub game_id: u64,
    pub player: Pubkey,
    pub stake_amount: u64,
    pub player_count: u8,
    pub timestamp: i64,
}

/// A game changed lifecycle state.
#[derive(Clone, Copy, Debug)]
pub struct GameStateChanged {
    pub game_id: u64,
    pub old_state: GameState,
    pub new_state: GameState,
    pub timestamp: i64,
}

/// A player committed a move.
#[derive(Clone, Copy, Debug)]
pub struct MoveCommitted {
    pub game_id: u64,
    pub player: Pubkey,
    pub move_hash: [u8; 32],
    pub round: u8,
    pub timestamp: i64,
}

/// A player revealed a move.
#[derive(Clone, Copy, Debug)]
pub struct MoveRevealed {
    pub game_id: u64,
    pub player: Pubkey,
    pub game_move: GameMove,
    pub round: u8,
    pub timestamp: i64,
}

/// A bet action was placed.
#[derive(Clone, Copy, Debug)]
pub struct BetPlaced {
    pub game_id: u64,
    pub player: Pubkey,
    pub action: BetAction,
    pub round: u8,
    pub pot_total: u64,
    pub timestamp: i64,
}

/// Lottery tickets were purchased.
#[derive(Clone, Copy, Debug)]
pub struct LotteryEntered {
    pub game_id: u64,
    pub player: Pubkey,
    pub num_tickets: u32,
    pub total_cost: u64,
    pub timestamp: i64,
}

/// A game was resolved.
#[derive(Clone, Copy, Debug)]
pub struct GameResolved {
    pub game_id: u64,
    pub winner: Option<Pubkey>,
    pub total_pot: u64,
    pub platform_fee: u64,
    pub winner_payout: u64,
    pub timestamp: i64,
}

/// The lottery was drawn.
#[derive(Clone, Copy, Debug)]
pub struct LotteryDrawn {
    pub game_id: u64,
    pub winner: Pubkey,
    pub winning_ticket: u32,
    pub total_tickets: u32,
    pub prize_amount: u64,
    pub vrf_result: [u8; 32],
    pub timestamp: i64,
}

/// A game was cancelled.
#[derive(Clone, Copy, Debug)]
pub struct GameCancelled {
    pub game_id: u64,
    pub reason: CancelReason,
    pub refund_amount: u64,
    pub timestamp: i64,
}

/// Winnings were claimed.
#[derive(Clone, Copy, Debug)]
pub struct WinningsClaimed {
    pub game_id: u64,
    pub player: Pubkey,
    pub amount: u64,
    pub timestamp: i64,
}

/// Platform fees were collected.
#[derive(Clone, Copy, Debug)]
pub struct FeesCollected {
    pub game_id: u64,
    pub treasury: Pubkey,
    pub amount: u64,
    pub timestamp: i64,
}

/// External randomness was requested.
#[derive(Clone, Copy, Debug)]
pub struct VrfRequested {
    pub game_id: u64,
    pub vrf_account: Pubkey,
    pub max_result: u64,
    pub timestamp: i64,
}

/// An external randomness result arrived.
#[derive(Clone, Copy, Debug)]
pub struct VrfFulfilled {
    pub game_id: u64,
    pub vrf_result: [u8; 32],
    pub randomness_value: u64,
    pub timestamp: i64,
}

/// A player was penalised for a timeout.
#[derive(Clone, Copy, Debug)]
pub struct PlayerTimedOut {
    pub game_id: u64,
    pub player: Pubkey,
    pub penalty_amount: u64,
    pub timestamp: i64,
}

/// Why a game was cancelled.
#[derive(Clone, Copy, Debug, PartialEq, Eq, Structural)]
pub enum CancelReason {
    InsufficientPlayers,
    CreatorCancelled,
    Timeout,
    AdminIntervention,
}

} // verus!
