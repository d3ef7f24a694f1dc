//! Tests of the game lifecycle: escrow locking, resolution payouts, the
//! state-machine guards, and the aggregate counters.

use luckpay::config::{initialize_config, Config};
use luckpay::errors::LuckPayError;
use luckpay::game::{CoinSide, Game, GameState};
use luckpay::ledger::{lock, settle, Balances};
use luckpay::machine::{close_game, create_game, request_randomness, resolve_game};

const PLAYER: u64 = 1;
const RECIPIENT: u64 = 2;
const AUTHORITY: u64 = 7;

fn fresh_balances() -> Balances {
    // The treasury starts with a 100 house float, so a first win (which owes
    // three stakes against an escrow of two) can be covered.
    Balances { player: 1000, treasury: 100, recipient: 0, fees_accrued: 0 }
}

/// Creates a stake-100, risk-80 game and requests randomness at slot 1.
fn requested_game(config: &Config, bal: &mut Balances) -> Game {
    let mut game = create_game(
        config,
        bal,
        PLAYER,
        RECIPIENT,
        100,
        CoinSide::Heads,
        80,
        5,
    )
    .expect("valid stake");
    request_randomness(&mut game, PLAYER, 1).expect("created game");
    game
}

#[test]
fn initialize_config_sets_fixed_edge_and_zeroed_counters() {
    let config = initialize_config(AUTHORITY, 5000);
    assert_eq!(config.authority, AUTHORITY);
    assert_eq!(config.house_edge_bp, 500);
    assert_eq!(config.max_bet_amount, 5000);
    assert_eq!(config.total_games, 0);
    assert_eq!(config.total_volume, 0);
}

#[test]
fn lock_moves_exactly_double_stake_into_treasury() {
    let mut bal = Balances { player: 500, treasury: 40, recipient: 9, fees_accrued: 3 };
    lock(&mut bal, 100, 1000).expect("valid stake");
    assert_eq!(bal.player, 300);
    assert_eq!(bal.treasury, 240);
    // No other balance changes.
    assert_eq!(bal.recipient, 9);
    assert_eq!(bal.fees_accrued, 3);
}

#[test]
fn settle_checks_the_treasury_before_any_transfer() {
    // A win owes three stakes; a treasury of 299 covers none of it.
    let mut bal = Balances { player: 0, treasury: 299, recipient: 0, fees_accrued: 0 };
    let short = settle(&mut bal, 100, true);
    assert_eq!(short.unwrap_err(), LuckPayError::InsufficientEscrowBalance);
    assert_eq!(bal, Balances { player: 0, treasury: 299, recipient: 0, fees_accrued: 0 });

    // With one more unit the same settlement fully applies.
    bal.treasury = 300;
    settle(&mut bal, 100, true).expect("funded treasury");
    assert_eq!(bal, Balances { player: 200, treasury: 0, recipient: 100, fees_accrued: 0 });

    // A loss owes only the recipient's stake and accrues the other as fee.
    let mut lost = Balances { player: 0, treasury: 200, recipient: 0, fees_accrued: 0 };
    settle(&mut lost, 100, false).expect("funded treasury");
    assert_eq!(lost, Balances { player: 0, treasury: 100, recipient: 100, fees_accrued: 100 });
}

#[test]
fn stake_at_bound_succeeds_and_above_or_zero_fails() {
    let config = initialize_config(AUTHORITY, 200);
    let mut bal = fresh_balances();

    let at_bound = create_game(&config, &mut bal, PLAYER, RECIPIENT, 200, CoinSide::Tails, 50, 5);
    assert!(at_bound.is_ok());
    assert_eq!(bal.player, 600);
    assert_eq!(bal.treasury, 500);

    let mut untouched = fresh_balances();
    let too_high =
        create_game(&config, &mut untouched, PLAYER, RECIPIENT, 201, CoinSide::Tails, 50, 5);
    assert_eq!(too_high.unwrap_err(), LuckPayError::BetTooHigh);
    assert_eq!(untouched, fresh_balances());

    let zero = create_game(&config, &mut untouched, PLAYER, RECIPIENT, 0, CoinSide::Tails, 50, 5);
    assert_eq!(zero.unwrap_err(), LuckPayError::InvalidBetAmount);
    assert_eq!(untouched, fresh_balances());
}

#[test]
fn created_game_starts_clean() {
    let config = initialize_config(AUTHORITY, 1000);
    let mut bal = fresh_balances();
    let game = create_game(&config, &mut bal, PLAYER, RECIPIENT, 100, CoinSide::Tails, 80, 42)
        .expect("valid stake");
    assert_eq!(game.player, PLAYER);
    assert_eq!(game.recipient, RECIPIENT);
    assert_eq!(game.stake_amount, 100);
    assert_eq!(game.choice, CoinSide::Tails);
    assert_eq!(game.risk_parameter, 80);
    assert_eq!(game.state, GameState::Created);
    assert_eq!(game.created_at, 42);
    assert_eq!(game.entropy_snapshot, None);
    assert_eq!(game.result, None);
}

#[test]
fn request_randomness_stores_snapshot_once() {
    let config = initialize_config(AUTHORITY, 1000);
    let mut bal = fresh_balances();
    let mut game = create_game(&config, &mut bal, PLAYER, RECIPIENT, 100, CoinSide::Heads, 80, 5)
        .expect("valid stake");

    request_randomness(&mut game, PLAYER, 0xAABB_CCDD_EEFF_1122).expect("created game");
    assert_eq!(game.state, GameState::RandomnessRequested);
    assert_eq!(game.entropy_snapshot, Some(0xEEFF_1122));

    // A second request is out of order and must not overwrite the snapshot.
    let again = request_randomness(&mut game, PLAYER, 9999);
    assert_eq!(again.unwrap_err(), LuckPayError::InvalidGameState);
    assert_eq!(game.state, GameState::RandomnessRequested);
    assert_eq!(game.entropy_snapshot, Some(0xEEFF_1122));
}

#[test]
fn win_pays_recipient_and_refunds_full_escrow() {
    let mut config = initialize_config(AUTHORITY, 1000);
    let mut bal = fresh_balances();
    let mut game = requested_game(&config, &mut bal);
    assert_eq!(bal.treasury, 300);

    // Sampled byte: 1 * 2 + 0 + 100 = 102, below the risk-80 threshold 151.
    resolve_game(&mut game, &mut config, &mut bal, 2, 0).expect("funded treasury");

    let result = game.result.expect("resolved game");
    assert!(result.player_won);
    assert_eq!(result.random_value, 102);
    assert_eq!(result.coin_result, CoinSide::Heads); // 102 is even
    assert_eq!(game.state, GameState::Resolved);

    // Recipient receives the stake, the player the doubled refund; the
    // treasury pays out three stakes in all.
    assert_eq!(bal.recipient, 100);
    assert_eq!(bal.player, 1000);
    assert_eq!(bal.treasury, 0);
    assert_eq!(bal.fees_accrued, 0);
    assert_eq!(config.total_games, 1);
    assert_eq!(config.total_volume, 100);
}

#[test]
fn loss_pays_recipient_and_retains_stake_as_fee() {
    let mut config = initialize_config(AUTHORITY, 1000);
    let mut bal = fresh_balances();
    let mut game = requested_game(&config, &mut bal);

    // Sampled byte: 1 * 100 + 0 + 100 = 200, at or above the threshold 151.
    resolve_game(&mut game, &mut config, &mut bal, 100, 0).expect("funded treasury");

    let result = game.result.expect("resolved game");
    assert!(!result.player_won);
    assert_eq!(result.random_value, 200);
    assert_eq!(result.coin_result, CoinSide::Heads); // 200 is even

    // Recipient receives the stake, the player nothing; only one stake
    // leaves the treasury and the other is recorded as an accrued fee.
    assert_eq!(bal.recipient, 100);
    assert_eq!(bal.player, 800);
    assert_eq!(bal.treasury, 200);
    assert_eq!(bal.fees_accrued, 100);
    assert_eq!(config.total_games, 1);
    assert_eq!(config.total_volume, 100);
}

#[test]
fn odd_sample_shows_tails_without_changing_payout_rule() {
    let mut config = initialize_config(AUTHORITY, 1000);
    let mut bal = fresh_balances();
    let mut game = requested_game(&config, &mut bal);

    // Sampled byte: 1 * 101 + 0 + 100 = 201, odd and a loss at threshold 151.
    resolve_game(&mut game, &mut config, &mut bal, 101, 0).expect("funded treasury");
    let result = game.result.expect("resolved game");
    assert_eq!(result.coin_result, CoinSide::Tails);
    assert!(!result.player_won);
}

#[test]
fn chosen_coin_face_never_affects_outcome() {
    let mut config = initialize_config(AUTHORITY, 1000);
    let mut outcomes = Vec::new();
    for choice in [CoinSide::Heads, CoinSide::Tails] {
        let mut bal = fresh_balances();
        let mut game = create_game(&config, &mut bal, PLAYER, RECIPIENT, 100, choice, 80, 5)
            .expect("valid stake");
        request_randomness(&mut game, PLAYER, 1).expect("created game");
        resolve_game(&mut game, &mut config, &mut bal, 2, 0).expect("funded treasury");
        let result = game.result.expect("resolved game");
        outcomes.push((result.player_won, result.random_value, result.coin_result, bal));
    }
    assert_eq!(outcomes[0], outcomes[1]);
}

#[test]
fn second_resolution_fails_and_changes_nothing() {
    let mut config = initialize_config(AUTHORITY, 1000);
    let mut bal = fresh_balances();
    let mut game = requested_game(&config, &mut bal);
    resolve_game(&mut game, &mut config, &mut bal, 2, 0).expect("funded treasury");

    let before_bal = bal;
    let before_config = config;
    let before_game = game;
    let again = resolve_game(&mut game, &mut config, &mut bal, 77, 123);
    assert_eq!(again.unwrap_err(), LuckPayError::InvalidGameState);
    assert_eq!(bal, before_bal);
    assert_eq!(config, before_config);
    assert_eq!(game, before_game);
}

#[test]
fn resolving_before_randomness_fails_without_side_effects() {
    let mut config = initialize_config(AUTHORITY, 1000);
    let mut bal = fresh_balances();
    let mut game = create_game(&config, &mut bal, PLAYER, RECIPIENT, 100, CoinSide::Heads, 80, 5)
        .expect("valid stake");

    let before_bal = bal;
    let before_config = config;
    let r = resolve_game(&mut game, &mut config, &mut bal, 2, 0);
    assert_eq!(r.unwrap_err(), LuckPayError::InvalidGameState);
    assert_eq!(game.state, GameState::Created);
    assert_eq!(game.result, None);
    assert_eq!(bal, before_bal);
    assert_eq!(config, before_config);
}

#[test]
fn underfunded_treasury_blocks_resolution() {
    let mut config = initialize_config(AUTHORITY, 1000);
    let mut bal = fresh_balances();
    let mut game = requested_game(&config, &mut bal);

    // Drain the treasury below the three stakes a win would owe.
    bal.treasury = 250;
    let before_bal = bal;
    let before_config = config;
    let r = resolve_game(&mut game, &mut config, &mut bal, 2, 0);
    assert_eq!(r.unwrap_err(), LuckPayError::InsufficientEscrowBalance);
    // The game is neither advanced nor debited.
    assert_eq!(game.state, GameState::RandomnessRequested);
    assert_eq!(game.result, None);
    assert_eq!(bal, before_bal);
    assert_eq!(config, before_config);
}

#[test]
fn accrued_fees_cover_a_later_win() {
    let mut config = initialize_config(AUTHORITY, 1000);

    // First game: the treasury starts empty, holds only the 200 escrow, and
    // the loss leaves a 100 fee behind.
    let mut bal = Balances { player: 1000, treasury: 0, recipient: 0, fees_accrued: 0 };
    let mut game = requested_game(&config, &mut bal);
    resolve_game(&mut game, &mut config, &mut bal, 100, 0).expect("funded treasury");
    assert_eq!(bal.treasury, 100);
    assert_eq!(bal.fees_accrued, 100);

    // Second game: its own escrow alone (200) could not cover the 300 a win
    // pays out; the retained fee provides the headroom.
    let mut bal2 = Balances {
        player: bal.player,
        treasury: bal.treasury,
        recipient: bal.recipient,
        fees_accrued: bal.fees_accrued,
    };
    let mut game2 = requested_game(&config, &mut bal2);
    assert_eq!(bal2.treasury, 300);
    resolve_game(&mut game2, &mut config, &mut bal2, 2, 0).expect("fee headroom");
    assert!(game2.result.expect("resolved game").player_won);
    assert_eq!(bal2.treasury, 0);
    assert_eq!(config.total_games, 2);
    assert_eq!(config.total_volume, 200);
}

#[test]
fn close_only_after_resolution() {
    let mut config = initialize_config(AUTHORITY, 1000);
    let mut bal = fresh_balances();
    let mut game = requested_game(&config, &mut bal);

    assert_eq!(close_game(&game, PLAYER).unwrap_err(), LuckPayError::InvalidGameState);
    resolve_game(&mut game, &mut config, &mut bal, 2, 0).expect("funded treasury");
    assert!(close_game(&game, PLAYER).is_ok());
}
