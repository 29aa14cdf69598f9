use vstd::prelude::*;
use vstd::pervasive::unreached;

use crate::error::SolPredictionError;
use crate::ledger;
use crate::state::{MarketAccounts, MintState, Position};
use crate::state::{market_inv, position_wf};

verus! {

/// Splitting is legal exactly while the market is open.
pub open spec fn split_ok(s: MarketAccounts) -> bool {
    !s.market.is_settled
}

/// The market's accounts after a split of `amount`: the pool and both
/// claim supplies each grow by `amount`; the record is untouched.
pub open spec fn split_accounts(s: MarketAccounts, amount: u64) -> MarketAccounts {
    MarketAccounts {
        market: s.market,
        outcome_a: MintState {
            supply: (s.outcome_a.supply + amount) as u64,
            has_mint_authority: s.outcome_a.has_mint_authority,
        },
        outcome_b: MintState {
            supply: (s.outcome_b.supply + amount) as u64,
            has_mint_authority: s.outcome_b.has_mint_authority,
        },
        vault_balance: (s.vault_balance + amount) as u64,
    }
}

/// The caller's position after a split of `amount`: `amount` collateral
/// given up, `amount` of each claim received.
pub open spec fn split_position(p: Position, amount: u64) -> Position {
    Position {
        base: (p.base - amount) as u64,
        outcome_a: (p.outcome_a + amount) as u64,
        outcome_b: (p.outcome_b + amount) as u64,
    }
}

/// Locks `amount` collateral from the caller in the market's vault and
/// mints `amount` of each claim token to the caller, under the market's
/// mint authority — all or nothing. Rejected on a settled market, which is
/// left untouched.
pub fn split(s: &mut MarketAccounts, user: &mut Position, amount: u64) -> (r: Result<
    (),
    SolPredictionError,
>)
    requires
        market_inv(*old(s)),
        position_wf(*old(s), *old(user)),
        old(user).base >= amount,
        old(s).vault_balance + amount <= u64::MAX,
    ensures
        market_inv(*final(s)),
        position_wf(*final(s), *final(user)),
        r is Ok <==> split_ok(*old(s)),
        r is Ok ==> *final(s) == split_accounts(*old(s), amount) && *final(user) == split_position(
            *old(user),
            amount,
        ),
        r is Err ==> *final(s) == *old(s) && *final(user) == *old(user) && r == Err::<
            (),
            SolPredictionError,
        >(SolPredictionError::MarketAlreadySettled),
{
    if s.market.is_settled {
        return Err(SolPredictionError::MarketAlreadySettled);
    }
    // Move the collateral from the caller into the vault.
    match ledger::transfer(&mut user.base, &mut s.vault_balance, amount) {
        Ok(()) => {},
        Err(_) => unreached(),
    }
    // Mint the claim pair to the caller.
    match ledger::mint(&mut s.outcome_a, &mut user.outcome_a, amount) {
        Ok(()) => {},
        Err(_) => unreached(),
    }
    match ledger::mint(&mut s.outcome_b, &mut user.outcome_b, amount) {
        Ok(()) => {},
        Err(_) => unreached(),
    }
    Ok(())
}

} // verus!
