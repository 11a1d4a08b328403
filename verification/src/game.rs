//! The enumerations of the game state machine.

use vstd::prelude::*;

verus! {

/// Which protocol a session runs.
#[derive(Clone, Copy, Debug, PartialEq, Eq, Structural)]
pub enum GameType {
    /// Rock-paper-scissors-style commit-reveal duel.
    SimpleDuel,
    /// Multi-round betting duel.
    MultiRound,
    /// Pool-based, ticket-weighted lottery.
    Lottery,
}

/// Lifecycle state of a session.
#[derive(Clone, Copy, Debug, PartialEq, Eq, Structural)]
pub enum GameState {
    /// Waiting for players.
    Waiting,
    /// Game in progress.
    Active,
    /// Computing the winner.
    Resolving,
    /// Game finished.
    Completed,
    /// Game cancelled.
    Cancelled,
}

/// A revealed move in a simple duel. `NoMove` is the sentinel for
/// "not yet revealed" and packs to the zero byte.
#[derive(Clone, Copy, Debug, PartialEq, Eq, Structural)]
pub enum GameMove {
    NoMove,
    Rock,
    Paper,
    Scissors,
    Heads,
    Tails,
    Number(u8),
}

/// A betting action in a multi-round duel.
#[derive(Clone, Copy, Debug, PartialEq, Eq, Structural)]
pub enum BetAction {
    Check,
    Call,
    Raise(u64),
    Fold,
}

} // verus!
