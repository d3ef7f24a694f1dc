//! The protocol's error taxonomy.

use vstd::prelude::*;

verus! {

/// Every way a protocol operation can refuse to run.  Each error is terminal
/// for the attempted operation: the caller observes no partial state change.
#[derive(Clone, Copy, Debug, PartialEq, Eq, Structural)]
pub enum LuckPayError {
    /// The stake offered at game creation was zero.
    InvalidBetAmount,
    /// The stake offered at game creation exceeds the configured maximum.
    BetTooHigh,
    /// The operation was attempted in the wrong lifecycle state; this covers
    /// double resolution, double close, and out-of-order calls.
    InvalidGameState,
    /// Reserved for a future asynchronous randomness oracle; the synchronous
    /// entropy path never produces it.
    RandomnessNotReady,
    /// The treasury cannot cover the payouts a resolution owes.
    InsufficientEscrowBalance,
}

} // verus!
