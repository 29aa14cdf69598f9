use vstd::prelude::*;

use crate::state::{Market, MarketAccounts, MintState};
use crate::state::market_inv;

verus! {

/// Creates a market: the record is written once, the two claim mints start
/// with zero supply and the market holding their mint authority, and the
/// collateral pool starts empty. The market opens in the un-settled state
/// with no winner recorded.
pub fn initialize_market(
    authority: u64,
    market_id: u64,
    outcome_a_mint: u64,
    outcome_b_mint: u64,
    base_token_mint: u64,
    base_token_vault: u64,
    bump: u8,
) -> (s: MarketAccounts)
    ensures
        market_inv(s),
        s.market.authority == authority,
        s.market.market_id == market_id,
        s.market.outcome_a_mint == outcome_a_mint,
        s.market.outcome_b_mint == outcome_b_mint,
        s.market.base_token_mint == base_token_mint,
        s.market.base_token_vault == base_token_vault,
        s.market.bump == bump,
        !s.market.is_settled,
        s.market.winning_outcome is None,
        s.outcome_a.supply == 0,
        s.outcome_b.supply == 0,
        s.vault_balance == 0,
        s.outcome_a.has_mint_authority,
        s.outcome_b.has_mint_authority,
{
    MarketAccounts {
        market: Market {
            authority,
            market_id,
            outcome_a_mint,
            outcome_b_mint,
            base_token_mint,
            base_token_vault,
            is_settled: false,
            winning_outcome: None,
            bump,
        },
        outcome_a: MintState { supply: 0, has_mint_authority: true },
        outcome_b: MintState { supply: 0, has_mint_authority: true },
        vault_balance: 0,
    }
}

} // verus!
