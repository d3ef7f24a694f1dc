//! Collateralization of the treasury.
//!
//! Every open game (one not yet resolved) has twice its stake locked in the
//! shared treasury, so the protocol aims at the invariant "treasury balance
//! covers the sum of the open escrows".  The lemmas here show how each
//! operation relates to that invariant: creation and loss resolution
//! preserve it outright, failed operations change nothing, and a winning
//! resolution — which pays out three stakes against an escrow of two —
//! preserves it exactly when the treasury holds one extra stake of headroom
//! (accrued fees or house float) beyond the open escrows.

use crate::config::Config;
use crate::game::Game;
use crate::game::GameState;
use crate::machine::spec_resolved_game;
use vstd::prelude::*;

verus! {

/// The escrow a single game binds in the treasury: twice its stake while it
/// is open, nothing once it is resolved.
pub open spec fn spec_obligation(g: Game) -> int {
    if g.is_open() {
        2 * g.stake_amount
    } else {
        0
    }
}

/// The treasury's total obligation: the sum, over all games, of the escrow
/// each still binds.
pub open spec fn spec_open_obligations(games: Seq<Game>) -> int
    decreases games.len(),
{
    if games.len() == 0 {
        0
    } else {
        spec_open_obligations(games.drop_last()) + spec_obligation(games.last())
    }
}

/// The collateralization invariant: the treasury covers every open escrow.
pub open spec fn spec_collateralized(treasury: u64, games: Seq<Game>) -> bool {
    treasury >= spec_open_obligations(games)
}

/// Appending a game adds exactly its own obligation to the total.
pub proof fn lemma_obligations_push(games: Seq<Game>, g: Game)
    ensures
        spec_open_obligations(games.push(g)) == spec_open_obligations(games) + spec_obligation(g),
{
    assert(games.push(g).drop_last() =~= games);
    assert(games.push(g).last() == g);
}

/// Replacing one game changes the total by the difference of the two
/// obligations alone.
pub proof fn lemma_obligations_update(games: Seq<Game>, i: int, g: Game)
    requires
        0 <= i < games.len(),
    ensures
        spec_open_obligations(games.update(i, g)) == spec_open_obligations(games) - spec_obligation(
            games[i],
        ) + spec_obligation(g),
    decreases games.len(),
{
    let updated = games.update(i, g);
    if i == games.len() - 1 {
        assert(updated.drop_last() =~= games.drop_last());
        assert(updated.last() == g);
    } else {
        assert(updated.drop_last() =~= games.drop_last().update(i, g));
        assert(updated.last() == games.last());
        lemma_obligations_update(games.drop_last(), i, g);
    }
}

/// Law: creating a game preserves collateralization.  The new record is open
/// and binds twice its stake, and the lock moved exactly twice the stake
/// into the treasury, so cover and obligation grow by the same amount.
pub proof fn lemma_create_preserves_collateral(
    games: Seq<Game>,
    g: Game,
    treasury_old: u64,
    treasury_new: u64,
)
    requires
        spec_collateralized(treasury_old, games),
        g.state is Created,
        treasury_new == treasury_old + 2 * g.stake_amount,
    ensures
        spec_collateralized(treasury_new, games.push(g)),
{
    lemma_obligations_push(games, g);
}

/// Law: requesting randomness preserves collateralization.  The transition
/// keeps the game open and keeps its stake, so the total obligation is
/// unchanged, and no funds move.
pub proof fn lemma_request_preserves_collateral(games: Seq<Game>, i: int, g: Game, treasury: u64)
    requires
        spec_collateralized(treasury, games),
        0 <= i < games.len(),
        g == (Game {
            state: GameState::RandomnessRequested,
            entropy_snapshot: g.entropy_snapshot,
            ..games[i]
        }),
        !(games[i].state is Resolved),
    ensures
        spec_collateralized(treasury, games.update(i, g)),
{
    lemma_obligations_update(games, i, g);
}

/// Law: a losing resolution preserves collateralization.  The game stops
/// binding its doubled stake while the treasury pays out only the single
/// stake owed to the recipient, so the cover shrinks by less than the
/// obligation does.
pub proof fn lemma_resolve_loss_preserves_collateral(
    games: Seq<Game>,
    i: int,
    c: Config,
    current_slot: u64,
    timestamp: i64,
    treasury_old: u64,
    treasury_new: u64,
)
    requires
        spec_collateralized(treasury_old, games),
        0 <= i < games.len(),
        games[i].state is RandomnessRequested,
        treasury_old >= games[i].stake_amount,
        treasury_new == treasury_old - games[i].stake_amount,
    ensures
        spec_collateralized(
            treasury_new,
            games.update(i, spec_resolved_game(games[i], c, current_slot, timestamp)),
        ),
{
    lemma_obligations_update(games, i, spec_resolved_game(games[i], c, current_slot, timestamp));
}

/// Law: a winning resolution preserves collateralization provided the
/// treasury holds one stake of headroom beyond the open escrows.  The win
/// pays out three stakes against the game's escrow of two, so the extra
/// stake must come from cover beyond the obligations; without that headroom
/// the invariant can fail even though the resolution itself succeeds, which
/// is exactly the gap the accrued fees are meant to fill.
pub proof fn lemma_resolve_win_preserves_collateral(
    games: Seq<Game>,
    i: int,
    c: Config,
    current_slot: u64,
    timestamp: i64,
    treasury_old: u64,
    treasury_new: u64,
)
    requires
        0 <= i < games.len(),
        games[i].state is RandomnessRequested,
        treasury_old >= spec_open_obligations(games) + games[i].stake_amount,
        treasury_old >= 3 * games[i].stake_amount,
        treasury_new == treasury_old - 3 * games[i].stake_amount,
    ensures
        spec_collateralized(
            treasury_new,
            games.update(i, spec_resolved_game(games[i], c, current_slot, timestamp)),
        ),
{
    lemma_obligations_update(games, i, spec_resolved_game(games[i], c, current_slot, timestamp));
}

} // verus!
