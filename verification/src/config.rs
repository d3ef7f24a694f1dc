//! Protocol-wide configuration and running aggregate statistics.

use crate::odds::HOUSE_EDGE_BP;
use vstd::prelude::*;

verus! {

/// The singleton protocol configuration, created once by the authority and
/// mutated only when a game is resolved.
#[derive(Clone, Copy, Debug, PartialEq, Eq)]
pub struct Config {
    /// Identity permitted to initialize the configuration.
    pub authority: u64,
    /// House edge in basis points; fixed at creation.
    pub house_edge_bp: u16,
    /// Upper bound on the stake of any game.
    pub max_bet_amount: u64,
    /// Number of games resolved so far.
    pub total_games: u64,
    /// Sum of the stakes of the games resolved so far.
    pub total_volume: u64,
}

impl Config {
    /// Well-formedness: the house edge is a valid basis-point fraction.
    pub open spec fn wf(self) -> bool {
        self.house_edge_bp <= 10000
    }
}

/// Creates the protocol configuration: the fixed 500 bp house edge, the given
/// stake bound, and zeroed counters.  Only the designated authority may run
/// this, and only once; the surrounding runtime enforces both.
pub fn initialize_config(authority: u64, max_bet_amount: u64) -> (c: Config)
    ensures
        c == (Config {
            authority,
            house_edge_bp: HOUSE_EDGE_BP,
            max_bet_amount,
            total_games: 0,
            total_volume: 0,
        }),
        c.wf(),
{
    Config { authority, house_edge_bp: HOUSE_EDGE_BP, max_bet_amount, total_games: 0, total_volume: 0 }
}

/// Records one resolution in the running aggregates.  Overflow of either
/// counter would be fatal for the whole operation, never silent wraparound,
/// so the preconditions rule it out.
pub fn record_resolution(config: &mut Config, stake_amount: u64)
    requires
        old(config).total_games < u64::MAX,
        old(config).total_volume + stake_amount <= u64::MAX,
    ensures
        *final(config) == (Config {
            total_games: (old(config).total_games + 1) as u64,
            total_volume: (old(config).total_volume + stake_amount) as u64,
            ..*old(config)
        }),
{
    config.total_games = config.total_games + 1;
    config.total_volume = config.total_volume + stake_amount;
}

} // verus!
