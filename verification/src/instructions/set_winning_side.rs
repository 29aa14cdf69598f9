use vstd::prelude::*;

use crate::error::SolPredictionError;
use crate::ledger;
use crate::state::{Market, MarketAccounts, MintState, WinningOutcome};
use crate::state::market_inv;

verus! {

/// Settlement is legal exactly once — only while the market is open — and
/// only for a real side: `Neither` is never an accepted input.
pub open spec fn settle_ok(s: MarketAccounts, winner: WinningOutcome) -> bool {
    !s.market.is_settled && winner != WinningOutcome::Neither
}

/// The market's accounts after settling on `winner`: the record carries
/// the winner and the settled flag, both mint authorities are revoked, and
/// no balance or supply moves.
pub open spec fn settle_accounts(s: MarketAccounts, winner: WinningOutcome) -> MarketAccounts {
    MarketAccounts {
        market: Market {
            authority: s.market.authority,
            market_id: s.market.market_id,
            outcome_a_mint: s.market.outcome_a_mint,
            outcome_b_mint: s.market.outcome_b_mint,
            base_token_mint: s.market.base_token_mint,
            base_token_vault: s.market.base_token_vault,
            is_settled: true,
            winning_outcome: Some(winner),
            bump: s.market.bump,
        },
        outcome_a: MintState { supply: s.outcome_a.supply, has_mint_authority: false },
        outcome_b: MintState { supply: s.outcome_b.supply, has_mint_authority: false },
        vault_balance: s.vault_balance,
    }
}

/// Fixes the winning side, marks the market settled, and permanently
/// revokes the mint authority of both claim tokens, freezing their supply
/// — one atomic, irreversible transition. Only the market's stored
/// authority may call this; a repeated call or a `Neither` input is
/// rejected and the market is left untouched. Settlement moves no
/// collateral.
pub fn set_winning_side(s: &mut MarketAccounts, authority: u64, winner: WinningOutcome) -> (r:
    Result<(), SolPredictionError>)
    requires
        market_inv(*old(s)),
        authority == old(s).market.authority,
    ensures
        market_inv(*final(s)),
        r is Ok <==> settle_ok(*old(s), winner),
        r is Ok ==> *final(s) == settle_accounts(*old(s), winner),
        r is Err ==> *final(s) == *old(s),
        old(s).market.is_settled ==> r == Err::<(), SolPredictionError>(
            SolPredictionError::MarketAlreadySettled,
        ),
        !old(s).market.is_settled && winner == WinningOutcome::Neither ==> r == Err::<
            (),
            SolPredictionError,
        >(SolPredictionError::InvalidOutcome),
{
    if s.market.is_settled {
        return Err(SolPredictionError::MarketAlreadySettled);
    }
    if !(matches!(winner, WinningOutcome::OutcomeA | WinningOutcome::OutcomeB)) {
        return Err(SolPredictionError::InvalidOutcome);
    }
    // Record the outcome and close the market, then freeze both claim
    // supplies for good.
    s.market.winning_outcome = Some(winner);
    s.market.is_settled = true;
    ledger::revoke_mint_authority(&mut s.outcome_a);
    ledger::revoke_mint_authority(&mut s.outcome_b);
    Ok(())
}

} // verus!
