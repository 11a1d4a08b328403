//! Typed failures surfaced by the session operations.
//!
//! Every error is local to a single call: a failing operation leaves
//! the session unchanged, and the session stays usable afterwards.

use vstd::prelude::*;

verus! {

/// Failures of the game state machine (lifecycle, moves, bets, lottery).
#[derive(Clone, Copy, Debug, PartialEq, Eq, Structural)]
pub enum GameError {
    /// Invalid game type specified.
    InvalidGameType,
    /// Game is not in the correct state for this action.
    InvalidGameState,
    /// Player not authorized for this action.
    UnauthorizedPlayer,
    /// Game is already full.
    GameFull,
    /// Stake amount is below minimum.
    StakeTooLow,
    /// Stake amount exceeds maximum.
    StakeTooHigh,
    /// Invalid move submitted.
    InvalidMove,
    /// Move already submitted.
    MoveAlreadySubmitted,
    /// Reveal does not match commitment.
    InvalidReveal,
    /// Game has timed out.
    GameTimeout,
    /// Insufficient funds for this action.
    InsufficientFunds,
    /// Invalid betting action.
    InvalidBetAction,
    /// Cannot fold in final round.
    CannotFoldFinalRound,
    /// Lottery is not ready for drawing.
    LotteryNotReady,
    /// No participants in lottery.
    NoLotteryParticipants,
    /// Player already in game.
    PlayerAlreadyJoined,
    /// Invalid configuration parameter.
    InvalidConfig,
    /// Arithmetic overflow.
    ArithmeticOverflow,
    /// Invalid randomness source.
    InvalidRandomness,
    /// Game not found.
    GameNotFound,
    /// Action not allowed in current round.
    ActionNotAllowedInRound,
    /// Platform fees have already been distributed.
    FeesAlreadyDistributed,
}

/// Failures of fee collection, payout and refund settlement.
#[derive(Clone, Copy, Debug, PartialEq, Eq, Structural)]
pub enum TreasuryError {
    /// Platform fees have already been distributed.
    FeesAlreadyDistributed,
    /// Game is not completed.
    GameNotCompleted,
    /// No winner set for this game.
    NoWinnerSet,
    /// Invalid winner account.
    InvalidWinner,
    /// Player not found in game.
    PlayerNotInGame,
    /// No stake to refund.
    NoStakeToRefund,
    /// Game is not cancelled.
    GameNotCancelled,
}

/// Failures of the verifiable-randomness integration.
#[derive(Clone, Copy, Debug, PartialEq, Eq, Structural)]
pub enum VrfError {
    /// No tickets sold for lottery.
    NoTicketsSold,
    /// Randomness result not yet available.
    VrfNotReady,
    /// Randomness already consumed for this game.
    VrfAlreadyConsumed,
    /// Verifiable randomness not enabled for this game.
    VrfNotEnabled,
}

/// Failures of the token-denominated flows.
#[derive(Clone, Copy, Debug, PartialEq, Eq, Structural)]
pub enum TokenError {
    /// Invalid stake amount.
    InvalidStakeAmount,
    /// Game is full.
    GameFull,
    /// Insufficient token balance.
    InsufficientBalance,
    /// Token mint mismatch.
    MintMismatch,
    /// Token transfer failed.
    TransferFailed,
}

} // verus!
