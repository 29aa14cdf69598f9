use vstd::prelude::*;

verus! {

/// Errors raised by the market's own rules.
#[derive(Clone, Copy, Debug, PartialEq, Eq, Structural)]
pub enum SolPredictionError {
    /// `set_winning_side` was given a winner other than `OutcomeA`/`OutcomeB`.
    InvalidOutcome,
    /// `claim_rewards` was attempted on a market that is still open.
    MarketNotSettled,
    /// The market is settled but records no winner; a corrupt record.
    WinningOutcomeNotSet,
    /// `split`, `merge` or `set_winning_side` was attempted on a settled market.
    MarketAlreadySettled,
}

/// Failures of the ledger's capability primitives. Any such failure aborts
/// the whole enclosing operation with no partial effect.
#[derive(Clone, Copy, Debug, PartialEq, Eq, Structural)]
pub enum LedgerError {
    /// A burn or transfer asked for more than the source balance holds.
    InsufficientFunds,
    /// A mint was attempted after the asset's mint authority was revoked.
    NoMintAuthority,
}

} // verus!
