//! The game state machine: the lifecycle operations and their orchestration
//! of the entropy source, the odds policy, the escrow ledger and the
//! aggregate counters.
//!
//! Each operation runs as one atomic unit against external ledger state.  An
//! error is terminal for the attempted operation and leaves every record and
//! balance exactly as it was; the contracts state this unchanged-on-error
//! behavior explicitly, which is also what makes a lost race to resolve or
//! close the same game a safe no-op.

use crate::config::Config;
use crate::config::record_resolution;
use crate::entropy;
use crate::errors::LuckPayError;
use crate::game::CoinSide;
use crate::game::Game;
use crate::game::GameResult;
use crate::game::GameState;
use crate::ledger;
use crate::ledger::Balances;
use crate::odds;
use vstd::prelude::*;

verus! {

/// The byte a resolution samples: the stored snapshot combined with the
/// slot and timestamp seen at resolution time and with the stake.
pub open spec fn spec_resolution_byte(g: Game, current_slot: u64, timestamp: i64) -> u8
    recommends
        g.entropy_snapshot is Some,
{
    entropy::spec_sample(g.entropy_snapshot->0, current_slot, timestamp, g.stake_amount)
}

/// Whether the player wins: the sampled byte falls strictly below the win
/// threshold the odds policy gives for the game's risk parameter.
pub open spec fn spec_resolution_won(g: Game, c: Config, current_slot: u64, timestamp: i64) -> bool
    recommends
        g.entropy_snapshot is Some,
        c.wf(),
{
    spec_resolution_byte(g, current_slot, timestamp) < odds::spec_win_threshold(
        g.risk_parameter,
        c.house_edge_bp,
    )
}

/// The displayed coin face: the sampled byte's parity, decoupled from the
/// economic outcome.
pub open spec fn spec_coin_face(random_value: u8) -> CoinSide {
    if random_value % 2 == 0 {
        CoinSide::Heads
    } else {
        CoinSide::Tails
    }
}

/// The game record after a successful resolution: terminal state, the result
/// set exactly once, everything else untouched.
pub open spec fn spec_resolved_game(g: Game, c: Config, current_slot: u64, timestamp: i64) -> Game
    recommends
        g.entropy_snapshot is Some,
        c.wf(),
{
    let random_value = spec_resolution_byte(g, current_slot, timestamp);
    Game {
        state: GameState::Resolved,
        result: Some(
            GameResult {
                coin_result: spec_coin_face(random_value),
                player_won: spec_resolution_won(g, c, current_slot, timestamp),
                random_value,
            },
        ),
        ..g
    }
}

/// Law: the cosmetic coin-face pick is decoupled from the economic outcome.
/// Two games differing only in `choice` sample the same byte and win or lose
/// together; the displayed face derives from the byte's parity alone.
pub proof fn lemma_choice_does_not_affect_outcome(
    g1: Game,
    g2: Game,
    c: Config,
    current_slot: u64,
    timestamp: i64,
)
    requires
        g2 == (Game { choice: g2.choice, ..g1 }),
    ensures
        spec_resolution_byte(g1, current_slot, timestamp) == spec_resolution_byte(
            g2,
            current_slot,
            timestamp,
        ),
        spec_resolution_won(g1, c, current_slot, timestamp) == spec_resolution_won(
            g2,
            c,
            current_slot,
            timestamp,
        ),
{
}

/// Creates a game.  The caller is the player; the surrounding runtime has
/// already authenticated them.  Exactly twice the stake is locked from the
/// player into the treasury, atomically with the record's creation, and the
/// new record starts in `Created` with neither snapshot nor result.  A zero
/// stake fails with `InvalidBetAmount` and one above the configured maximum
/// with `BetTooHigh`, in that order of checking, moving nothing.
pub fn create_game(
    config: &Config,
    bal: &mut Balances,
    player: u64,
    recipient: u64,
    stake_amount: u64,
    choice: CoinSide,
    risk_parameter: u8,
    now: i64,
) -> (r: Result<Game, LuckPayError>)
    requires
        stake_amount <= config.max_bet_amount ==> 2 * stake_amount <= u64::MAX,
        0 < stake_amount && stake_amount <= config.max_bet_amount ==> {
            &&& old(bal).player >= 2 * stake_amount
            &&& old(bal).treasury + 2 * stake_amount <= u64::MAX
        },
    ensures
        r is Ok <==> 0 < stake_amount && stake_amount <= config.max_bet_amount,
        r is Ok ==> {
            &&& r->Ok_0 == (Game {
                player,
                recipient,
                stake_amount,
                choice,
                risk_parameter,
                state: GameState::Created,
                created_at: now,
                entropy_snapshot: None,
                result: None,
            })
            &&& r->Ok_0.wf()
            &&& *final(bal) == (Balances {
                player: (old(bal).player - 2 * stake_amount) as u64,
                treasury: (old(bal).treasury + 2 * stake_amount) as u64,
                recipient: old(bal).recipient,
                fees_accrued: old(bal).fees_accrued,
            })
        },
        r is Err ==> *final(bal) == *old(bal),
        r == Err::<Game, LuckPayError>(LuckPayError::InvalidBetAmount) <==> stake_amount == 0,
        r == Err::<Game, LuckPayError>(LuckPayError::BetTooHigh) <==> 0 < stake_amount
            && stake_amount > config.max_bet_amount,
        final(bal).total() == old(bal).total(),
{
    match ledger::lock(bal, stake_amount, config.max_bet_amount) {
        Ok(()) => Ok(
            Game {
                player,
                recipient,
                stake_amount,
                choice,
                risk_parameter,
                state: GameState::Created,
                created_at: now,
                entropy_snapshot: None,
                result: None,
            },
        ),
        Err(e) => Err(e),
    }
}

/// Requests randomness for a game.  Only the game's own player may call
/// this, which the precondition records.  Legal only in `Created`; any other
/// state fails with `InvalidGameState` and changes nothing.  On success the
/// entropy snapshot is taken from the current slot, exactly once, and the
/// game moves to `RandomnessRequested`.
pub fn request_randomness(game: &mut Game, caller: u64, slot: u64) -> (r: Result<(), LuckPayError>)
    requires
        old(game).wf(),
        caller == old(game).player,
    ensures
        r is Ok <==> old(game).state is Created,
        r is Ok ==> *final(game) == (Game {
            state: GameState::RandomnessRequested,
            entropy_snapshot: Some(entropy::spec_slot_snapshot(slot)),
            ..*old(game)
        }),
        r is Err ==> *final(game) == *old(game) && r == Err::<(), LuckPayError>(
            LuckPayError::InvalidGameState,
        ),
        final(game).wf(),
{
    if !matches!(game.state, GameState::Created) {
        return Err(LuckPayError::InvalidGameState);
    }
    game.state = GameState::RandomnessRequested;
    game.entropy_snapshot = Some(entropy::slot_snapshot(slot));
    Ok(())
}

/// Resolves a game: any party may call this once the game is in
/// `RandomnessRequested`; the state check alone enforces single execution.
/// The stored snapshot is combined with fresh context into the final random
/// byte, the odds policy fixes the win threshold, and the escrow ledger pays
/// out: the recipient always receives the stake, and a winning player is
/// refunded the doubled stake.  The aggregate counters record the resolution
/// in the same atomic unit.  In a wrong state it fails with
/// `InvalidGameState`, and with the treasury unable to cover the owed payout
/// with `InsufficientEscrowBalance`; either error leaves the game record,
/// the configuration and every balance exactly as they were.
pub fn resolve_game(
    game: &mut Game,
    config: &mut Config,
    bal: &mut Balances,
    current_slot: u64,
    timestamp: i64,
) -> (r: Result<(), LuckPayError>)
    requires
        old(game).wf(),
        old(config).wf(),
        old(game).state is RandomnessRequested ==> {
            &&& old(config).total_games < u64::MAX
            &&& old(config).total_volume + old(game).stake_amount <= u64::MAX
            &&& old(bal).recipient + old(game).stake_amount <= u64::MAX
            &&& spec_resolution_won(*old(game), *old(config), current_slot, timestamp) ==> {
                &&& 3 * old(game).stake_amount <= u64::MAX
                &&& old(bal).player + 2 * old(game).stake_amount <= u64::MAX
            }
            &&& !spec_resolution_won(*old(game), *old(config), current_slot, timestamp) ==> old(
                bal,
            ).fees_accrued + old(game).stake_amount <= u64::MAX
        },
    ensures
        r is Ok <==> old(game).state is RandomnessRequested && old(bal).treasury
            >= ledger::spec_required_payout(
            old(game).stake_amount,
            spec_resolution_won(*old(game), *old(config), current_slot, timestamp),
        ),
        r is Ok ==> {
            &&& *final(game) == spec_resolved_game(
                *old(game),
                *old(config),
                current_slot,
                timestamp,
            )
            &&& final(game).wf()
            &&& *final(config) == (Config {
                total_games: (old(config).total_games + 1) as u64,
                total_volume: (old(config).total_volume + old(game).stake_amount) as u64,
                ..*old(config)
            })
            &&& *final(bal) == ledger::spec_settled(
                *old(bal),
                old(game).stake_amount,
                spec_resolution_won(*old(game), *old(config), current_slot, timestamp),
            )
        },
        r is Err ==> {
            &&& *final(game) == *old(game)
            &&& *final(config) == *old(config)
            &&& *final(bal) == *old(bal)
        },
        r == Err::<(), LuckPayError>(LuckPayError::InvalidGameState) <==> !(old(
            game,
        ).state is RandomnessRequested),
        r == Err::<(), LuckPayError>(LuckPayError::InsufficientEscrowBalance) <==> old(
            game,
        ).state is RandomnessRequested && old(bal).treasury < ledger::spec_required_payout(
            old(game).stake_amount,
            spec_resolution_won(*old(game), *old(config), current_slot, timestamp),
        ),
        final(bal).total() == old(bal).total(),
{
    if !matches!(game.state, GameState::RandomnessRequested) {
        return Err(LuckPayError::InvalidGameState);
    }
    let request_snapshot: u32 = match game.entropy_snapshot {
        Some(s) => s,
        None => {
            // wf rules this out: the snapshot is present from the
            // randomness request on.
            assert(false);
            0
        },
    };
    let random_value: u8 = entropy::sample(
        request_snapshot,
        current_slot,
        timestamp,
        game.stake_amount,
    );
    let threshold: u8 = odds::win_threshold(game.risk_parameter, config.house_edge_bp);
    let player_won: bool = random_value < threshold;
    let coin_result: CoinSide = if random_value % 2 == 0 {
        CoinSide::Heads
    } else {
        CoinSide::Tails
    };

    match ledger::settle(bal, game.stake_amount, player_won) {
        Ok(()) => {},
        Err(e) => {
            return Err(e);
        },
    }

    game.result = Some(GameResult { coin_result, player_won, random_value });
    game.state = GameState::Resolved;
    record_resolution(config, game.stake_amount);
    Ok(())
}

/// Closes a resolved game so the runtime can reclaim its record's storage.
/// Only the game's own player may call this, which the precondition records.
/// Legal only in `Resolved`: closing a game in any earlier state fails with
/// `InvalidGameState`, and a record that no longer exists never reaches this
/// check, so a second close fails cleanly in the runtime.
pub fn close_game(game: &Game, caller: u64) -> (r: Result<(), LuckPayError>)
    requires
        caller == game.player,
    ensures
        r is Ok <==> game.state is Resolved,
        r is Err ==> r == Err::<(), LuckPayError>(LuckPayError::InvalidGameState),
{
    if !matches!(game.state, GameState::Resolved) {
        return Err(LuckPayError::InvalidGameState);
    }
    Ok(())
}

} // verus!
