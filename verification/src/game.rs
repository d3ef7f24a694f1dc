//! The per-game record and its lifecycle states.

use vstd::prelude::*;

verus! {

/// The cosmetic coin face a player picks at creation.  It never affects the
/// win probability or the payouts; only the displayed result derives from it.
#[derive(Clone, Copy, Debug, PartialEq, Eq, Structural)]
pub enum CoinSide {
    Heads,
    Tails,
}

/// The lifecycle states of a game.  Transitions are strict: `Created` to
/// `RandomnessRequested` to `Resolved`, with no skipping and no re-entry.
#[derive(Clone, Copy, Debug, PartialEq, Eq, Structural)]
pub enum GameState {
    Created,
    RandomnessRequested,
    Resolved,
}

/// The outcome recorded exactly once, when a game is resolved.
#[derive(Clone, Copy, Debug, PartialEq, Eq, Structural)]
pub struct GameResult {
    /// The displayed coin face, derived from the sampled byte's parity alone.
    pub coin_result: CoinSide,
    /// Whether the player won, i.e. the sampled byte fell strictly below the
    /// win threshold.  Independent of `coin_result`.
    pub player_won: bool,
    /// The sampled byte itself.
    pub random_value: u8,
}

/// One active wager, keyed by its player.
#[derive(Clone, Copy, Debug, PartialEq, Eq)]
pub struct Game {
    /// Identity of the player who created the game and funded the escrow.
    pub player: u64,
    /// Identity of the party paid the stake on every outcome.
    pub recipient: u64,
    /// The amount paid to `recipient` at resolution.  The amount at risk is
    /// always twice this.
    pub stake_amount: u64,
    /// The cosmetic coin-face pick.
    pub choice: CoinSide,
    /// Risk dial in `0..=100` selecting a win-probability tier; it does not
    /// change the payout amounts.
    pub risk_parameter: u8,
    /// Current lifecycle state.
    pub state: GameState,
    /// Creation timestamp.
    pub created_at: i64,
    /// Entropy snapshot, set exactly once during the transition to
    /// `RandomnessRequested` and never overwritten.
    pub entropy_snapshot: Option<u32>,
    /// Outcome, set exactly once during the transition to `Resolved`.
    pub result: Option<GameResult>,
}

impl Game {
    /// Well-formedness: the stake is positive and its doubled escrow fits in
    /// a balance, and the optional fields are present exactly in the states
    /// that set them.
    pub open spec fn wf(self) -> bool {
        &&& 0 < self.stake_amount
        &&& 2 * self.stake_amount <= u64::MAX
        &&& (self.entropy_snapshot is None <==> self.state is Created)
        &&& (self.result is Some <==> self.state is Resolved)
    }

    /// A game still holding escrow: one not yet resolved.
    pub open spec fn is_open(self) -> bool {
        !(self.state is Resolved)
    }
}

} // verus!
