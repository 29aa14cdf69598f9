use vstd::prelude::*;
use vstd::pervasive::unreached;

use crate::error::SolPredictionError;
use crate::ledger;
use crate::state::{MarketAccounts, MintState, Position};
use crate::state::{market_inv, position_wf};

verus! {

/// Merging is legal exactly while the market is open. Merging after
/// settlement would let a losing claim be recombined with a winning one
/// and cashed at face value, so it is gated on the open state.
pub open spec fn merge_ok(s: MarketAccounts) -> bool {
    !s.market.is_settled
}

/// The market's accounts after a merge of `amount`: the pool and both
/// claim supplies each shrink by `amount`; the record is untouched.
pub open spec fn merge_accounts(s: MarketAccounts, amount: u64) -> MarketAccounts {
    MarketAccounts {
        market: s.market,
        outcome_a: MintState {
            supply: (s.outcome_a.supply - amount) as u64,
            has_mint_authority: s.outcome_a.has_mint_authority,
        },
        outcome_b: MintState {
            supply: (s.outcome_b.supply - amount) as u64,
            has_mint_authority: s.outcome_b.has_mint_authority,
        },
        vault_balance: (s.vault_balance - amount) as u64,
    }
}

/// The caller's position after a merge of `amount`: `amount` of each claim
/// given up, `amount` collateral received back.
pub open spec fn merge_position(p: Position, amount: u64) -> Position {
    Position {
        base: (p.base + amount) as u64,
        outcome_a: (p.outcome_a - amount) as u64,
        outcome_b: (p.outcome_b - amount) as u64,
    }
}

/// Burns `amount` of each claim token from the caller and returns `amount`
/// collateral from the vault — the exact inverse of `split`, all or
/// nothing. Rejected on a settled market, which is left untouched.
pub fn merge(s: &mut MarketAccounts, user: &mut Position, amount: u64) -> (r: Result<
    (),
    SolPredictionError,
>)
    requires
        market_inv(*old(s)),
        position_wf(*old(s), *old(user)),
        old(user).outcome_a >= amount,
        old(user).outcome_b >= amount,
        old(user).base + amount <= u64::MAX,
    ensures
        market_inv(*final(s)),
        position_wf(*final(s), *final(user)),
        r is Ok <==> merge_ok(*old(s)),
        r is Ok ==> *final(s) == merge_accounts(*old(s), amount) && *final(user) == merge_position(
            *old(user),
            amount,
        ),
        r is Err ==> *final(s) == *old(s) && *final(user) == *old(user) && r == Err::<
            (),
            SolPredictionError,
        >(SolPredictionError::MarketAlreadySettled),
{
    if s.market.is_settled {
        return Err(SolPredictionError::MarketAlreadySettled);
    }
    // Burn the claim pair held by the caller.
    match ledger::burn(&mut s.outcome_a, &mut user.outcome_a, amount) {
        Ok(()) => {},
        Err(_) => unreached(),
    }
    match ledger::burn(&mut s.outcome_b, &mut user.outcome_b, amount) {
        Ok(()) => {},
        Err(_) => unreached(),
    }
    // Return the matching collateral from the vault to the caller.
    match ledger::transfer(&mut s.vault_balance, &mut user.base, amount) {
        Ok(()) => {},
        Err(_) => unreached(),
    }
    Ok(())
}

} // verus!
