use vstd::prelude::*;

verus! {

/// Which side of a settled market won. `Neither` is a representable stored
/// value — the data model's third variant — but `set_winning_side` never
/// accepts it as an input, so no settlement path writes it.
#[derive(Clone, Copy, Debug, PartialEq, Eq, Structural)]
pub enum WinningOutcome {
    OutcomeA,
    OutcomeB,
    Neither,
}

/// The durable record for one market instance.
///
/// Account addresses and the market id are opaque fixed-size identifiers on
/// the host ledger; the record carries them as plain integer values and
/// never interprets them. All fields but `is_settled` and `winning_outcome`
/// are fixed at creation.
#[derive(Clone, Copy, Debug)]
pub struct Market {
    /// Identity permitted to settle the market.
    pub authority: u64,
    /// Identifier chosen at creation, from which dependent addresses derive.
    pub market_id: u64,
    /// Asset identifier of the outcome-A claim token.
    pub outcome_a_mint: u64,
    /// Asset identifier of the outcome-B claim token.
    pub outcome_b_mint: u64,
    /// Asset identifier of the collateral (base) asset.
    pub base_token_mint: u64,
    /// Address of the pool holding deposited collateral.
    pub base_token_vault: u64,
    /// `false` while open; set to `true` exactly once, at settlement.
    pub is_settled: bool,
    /// `None` while open; written exactly once, at settlement.
    pub winning_outcome: Option<WinningOutcome>,
    /// Address-derivation artifact fixed at creation.
    pub bump: u8,
}

/// One fungible asset as the ledger sees it: its outstanding supply and
/// whether its minting authority is still in force.
#[derive(Clone, Copy, Debug)]
pub struct MintState {
    pub supply: u64,
    pub has_mint_authority: bool,
}

/// Everything one market owns on the ledger: the durable record, the two
/// claim mints, and the collateral held in the market's vault.
#[derive(Clone, Copy, Debug)]
pub struct MarketAccounts {
    pub market: Market,
    pub outcome_a: MintState,
    pub outcome_b: MintState,
    /// Balance of the collateral pool (`market.base_token_vault`).
    pub vault_balance: u64,
}

/// One caller's balances in the three assets the market touches.
#[derive(Clone, Copy, Debug)]
pub struct Position {
    pub base: u64,
    pub outcome_a: u64,
    pub outcome_b: u64,
}

/// Conservation: the collateral pool exactly backs the outstanding supply
/// of each claim token.
pub open spec fn conservation(s: MarketAccounts) -> bool {
    s.vault_balance == s.outcome_a.supply && s.vault_balance == s.outcome_b.supply
}

/// Well-formedness of a market's accounts, established at creation and
/// preserved by every operation.
///
/// While open: no winner is recorded, both claim mints can still mint, and
/// conservation holds. Once settled: a winner is recorded, both mint
/// authorities are revoked, and the pool still exactly backs the winning
/// side's outstanding supply, so every outstanding winning claim can be
/// paid 1:1.
pub open spec fn market_inv(s: MarketAccounts) -> bool {
    &&& !s.market.is_settled ==> {
        &&& s.market.winning_outcome is None
        &&& s.outcome_a.has_mint_authority
        &&& s.outcome_b.has_mint_authority
        &&& conservation(s)
    }
    &&& s.market.is_settled ==> {
        &&& s.market.winning_outcome is Some
        &&& !s.outcome_a.has_mint_authority
        &&& !s.outcome_b.has_mint_authority
        &&& (s.market.winning_outcome == Some(WinningOutcome::OutcomeA)
            ==> s.vault_balance == s.outcome_a.supply)
        &&& (s.market.winning_outcome == Some(WinningOutcome::OutcomeB)
            ==> s.vault_balance == s.outcome_b.supply)
    }
}

/// A holder's claim balances never exceed the outstanding supplies; what
/// one holder owns is at most what was ever minted and not burned.
pub open spec fn position_wf(s: MarketAccounts, p: Position) -> bool {
    p.outcome_a <= s.outcome_a.supply && p.outcome_b <= s.outcome_b.supply
}

} // verus!
