use vstd::prelude::*;
use vstd::pervasive::unreached;

use crate::error::SolPredictionError;
use crate::ledger;
use crate::state::{MarketAccounts, MintState, Position, WinningOutcome};
use crate::state::{market_inv, position_wf};

verus! {

/// Redemption is legal exactly once the market is settled.
pub open spec fn claim_ok(s: MarketAccounts) -> bool {
    s.market.is_settled
}

/// The collateral a redemption pays the holder of `p`: the holder's whole
/// balance on the winning side, 1:1; nothing when no side won.
pub open spec fn payout_amount(s: MarketAccounts, p: Position) -> u64 {
    match s.market.winning_outcome {
        Some(WinningOutcome::OutcomeA) => p.outcome_a,
        Some(WinningOutcome::OutcomeB) => p.outcome_b,
        Some(WinningOutcome::Neither) => 0,
        None => 0,
    }
}

/// The market's accounts after the holder of `p` redeems: both of the
/// holder's claim balances leave the supplies, and the payout leaves the
/// pool; the record is untouched.
pub open spec fn claim_accounts(s: MarketAccounts, p: Position) -> MarketAccounts {
    MarketAccounts {
        market: s.market,
        outcome_a: MintState {
            supply: (s.outcome_a.supply - p.outcome_a) as u64,
            has_mint_authority: s.outcome_a.has_mint_authority,
        },
        outcome_b: MintState {
            supply: (s.outcome_b.supply - p.outcome_b) as u64,
            has_mint_authority: s.outcome_b.has_mint_authority,
        },
        vault_balance: (s.vault_balance - payout_amount(s, p)) as u64,
    }
}

/// The holder's position after redeeming: both claim balances at zero —
/// losing-side claims are burned with no payout — and the payout added to
/// the collateral balance.
pub open spec fn claim_position(s: MarketAccounts, p: Position) -> Position {
    Position {
        base: (p.base + payout_amount(s, p)) as u64,
        outcome_a: 0,
        outcome_b: 0,
    }
}

/// Burns the caller's whole balance of both claim tokens and, when the
/// caller held the winning side, pays the same number of collateral units
/// from the vault — all or nothing. Rejected while the market is still
/// open, which leaves everything untouched. With both balances burned to
/// zero, a repeated call succeeds and pays nothing.
pub fn claim_rewards(s: &mut MarketAccounts, user: &mut Position) -> (r: Result<
    (),
    SolPredictionError,
>)
    requires
        market_inv(*old(s)),
        position_wf(*old(s), *old(user)),
        old(user).base + payout_amount(*old(s), *old(user)) <= u64::MAX,
    ensures
        market_inv(*final(s)),
        position_wf(*final(s), *final(user)),
        r is Ok <==> claim_ok(*old(s)),
        r is Ok ==> *final(s) == claim_accounts(*old(s), *old(user)) && *final(user)
            == claim_position(*old(s), *old(user)),
        r is Err ==> *final(s) == *old(s) && *final(user) == *old(user) && r == Err::<
            (),
            SolPredictionError,
        >(SolPredictionError::MarketNotSettled),
{
    if !s.market.is_settled {
        return Err(SolPredictionError::MarketNotSettled);
    }
    let winning_outcome: WinningOutcome = match s.market.winning_outcome {
        Some(w) => w,
        // A settled record always carries a winner; a missing one would be
        // a corrupt record.
        None => { return Err(SolPredictionError::WinningOutcomeNotSet) },
    };

    let outcome_a_amount: u64 = user.outcome_a;
    let outcome_b_amount: u64 = user.outcome_b;

    // Burn the caller's whole balance of both claim tokens; the losing
    // side is destroyed with no payout.
    match ledger::burn(&mut s.outcome_a, &mut user.outcome_a, outcome_a_amount) {
        Ok(()) => {},
        Err(_) => unreached(),
    }
    match ledger::burn(&mut s.outcome_b, &mut user.outcome_b, outcome_b_amount) {
        Ok(()) => {},
        Err(_) => unreached(),
    }

    let winning_amount: u64 = match winning_outcome {
        WinningOutcome::OutcomeA => outcome_a_amount,
        WinningOutcome::OutcomeB => outcome_b_amount,
        WinningOutcome::Neither => 0,
    };

    if winning_amount > 0 {
        match ledger::transfer(&mut s.vault_balance, &mut user.base, winning_amount) {
            Ok(()) => {},
            Err(_) => unreached(),
        }
    }
    Ok(())
}

} // verus!
