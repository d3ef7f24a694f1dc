//! The escrow ledger: the three party balances a game touches, and the two
//! fund movements of the protocol.
//!
//! Every operation either fully applies or fully fails; the contracts state
//! each balance after the call exactly, so "no other balance changes" is part
//! of what is proved.  The fee a lost game leaves in the treasury is recorded
//! as an explicit accrual event in `fees_accrued`, which is bookkeeping over
//! the treasury's funds, not a fourth balance.

use crate::errors::LuckPayError;
use vstd::prelude::*;

verus! {

/// The balances the protocol moves funds between.  The treasury is the
/// singleton pooled balance holding every active escrow plus accrued fees;
/// `player` and `recipient` are the external parties of the game at hand.
#[derive(Clone, Copy, Debug, PartialEq, Eq)]
pub struct Balances {
    /// The player's balance.
    pub player: u64,
    /// The shared protocol treasury.
    pub treasury: u64,
    /// The recipient's balance.
    pub recipient: u64,
    /// Running total of fees the treasury has retained from lost games.
    pub fees_accrued: u64,
}

impl Balances {
    /// The funds in the system: bookkeeping aside, transfers only move value
    /// between these three balances.
    pub open spec fn total(self) -> int {
        self.player + self.treasury + self.recipient
    }
}

/// The payout a resolution owes before any transfer may run: the stake for
/// the recipient, plus the doubled-stake refund when the player won.
pub open spec fn spec_required_payout(stake_amount: u64, player_won: bool) -> int {
    if player_won {
        3 * stake_amount
    } else {
        stake_amount as int
    }
}

/// The balances after a successful settlement.  The recipient is paid the
/// stake on every outcome; a winning player is refunded the full escrow,
/// while a loss leaves the stake in the treasury as an accrued fee.
pub open spec fn spec_settled(b: Balances, stake_amount: u64, player_won: bool) -> Balances {
    if player_won {
        Balances {
            player: (b.player + 2 * stake_amount) as u64,
            treasury: (b.treasury - 3 * stake_amount) as u64,
            recipient: (b.recipient + stake_amount) as u64,
            fees_accrued: b.fees_accrued,
        }
    } else {
        Balances {
            player: b.player,
            treasury: (b.treasury - stake_amount) as u64,
            recipient: (b.recipient + stake_amount) as u64,
            fees_accrued: (b.fees_accrued + stake_amount) as u64,
        }
    }
}

/// Locks the escrow for a new game: exactly twice the stake moves from the
/// player into the treasury, and no other balance changes.  Runs atomically
/// with game-record creation; the enclosing commit guarantees the player can
/// fund the escrow whenever the stake passes the checks, which the
/// preconditions mirror.
pub fn lock(bal: &mut Balances, stake_amount: u64, max_bet_amount: u64) -> (r: Result<
    (),
    LuckPayError,
>)
    requires
        stake_amount <= max_bet_amount ==> 2 * stake_amount <= u64::MAX,
        0 < stake_amount && stake_amount <= max_bet_amount ==> {
            &&& old(bal).player >= 2 * stake_amount
            &&& old(bal).treasury + 2 * stake_amount <= u64::MAX
        },
    ensures
        r is Ok <==> 0 < stake_amount && stake_amount <= max_bet_amount,
        r is Ok ==> *final(bal) == (Balances {
            player: (old(bal).player - 2 * stake_amount) as u64,
            treasury: (old(bal).treasury + 2 * stake_amount) as u64,
            recipient: old(bal).recipient,
            fees_accrued: old(bal).fees_accrued,
        }),
        r is Err ==> *final(bal) == *old(bal),
        r == Err::<(), LuckPayError>(LuckPayError::InvalidBetAmount) <==> stake_amount == 0,
        r == Err::<(), LuckPayError>(LuckPayError::BetTooHigh) <==> 0 < stake_amount
            && stake_amount > max_bet_amount,
        final(bal).total() == old(bal).total(),
{
    if stake_amount == 0 {
        return Err(LuckPayError::InvalidBetAmount);
    }
    if stake_amount > max_bet_amount {
        return Err(LuckPayError::BetTooHigh);
    }
    let escrow_amount: u64 = stake_amount * 2;
    bal.player = bal.player - escrow_amount;
    bal.treasury = bal.treasury + escrow_amount;
    Ok(())
}

/// Settles a resolution: first checks that the treasury covers everything
/// this outcome owes, then pays the recipient the stake and, on a win,
/// refunds the player the full escrow.  On an insufficient treasury it fails
/// with zero transfers; on a loss the retained stake is recorded as a fee
/// accrual.
pub fn settle(bal: &mut Balances, stake_amount: u64, player_won: bool) -> (r: Result<
    (),
    LuckPayError,
>)
    requires
        2 * stake_amount <= u64::MAX,
        player_won ==> 3 * stake_amount <= u64::MAX,
        old(bal).recipient + stake_amount <= u64::MAX,
        player_won ==> old(bal).player + 2 * stake_amount <= u64::MAX,
        !player_won ==> old(bal).fees_accrued + stake_amount <= u64::MAX,
    ensures
        r is Ok <==> old(bal).treasury >= spec_required_payout(stake_amount, player_won),
        r is Ok ==> *final(bal) == spec_settled(*old(bal), stake_amount, player_won),
        r is Err ==> *final(bal) == *old(bal) && r == Err::<(), LuckPayError>(
            LuckPayError::InsufficientEscrowBalance,
        ),
        final(bal).total() == old(bal).total(),
{
    let required_for_recipient: u64 = stake_amount;
    let required_for_refund: u64 = if player_won {
        stake_amount * 2
    } else {
        0
    };
    let total_required: u64 = required_for_recipient + required_for_refund;
    if bal.treasury < total_required {
        return Err(LuckPayError::InsufficientEscrowBalance);
    }
    bal.treasury = bal.treasury - total_required;
    bal.recipient = bal.recipient + stake_amount;
    if player_won {
        bal.player = bal.player + stake_amount * 2;
    } else {
        bal.fees_accrued = bal.fees_accrued + stake_amount;
    }
    Ok(())
}

} // verus!
