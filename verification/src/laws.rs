use vstd::prelude::*;

use crate::instructions::claim_rewards::{
    claim_accounts, claim_ok, claim_position, payout_amount,
};
use crate::instructions::merge::{merge_accounts, merge_position};
use crate::instructions::set_winning_side::{settle_accounts, settle_ok};
use crate::instructions::split::{split_accounts, split_ok, split_position};
use crate::state::{conservation, market_inv, position_wf};
use crate::state::{MarketAccounts, Position, WinningOutcome};

verus! {

/// Conservation under splitting: a split of any amount on a market whose
/// pool backs both claim supplies leaves the pool backing both supplies.
/// Together with `lemma_merge_preserves_conservation` and the
/// `market_inv` clause in every operation's contract, conservation holds
/// after every sequence of splits and merges on an open market.
pub proof fn lemma_split_preserves_conservation(s: MarketAccounts, amount: u64)
    requires
        conservation(s),
        s.vault_balance + amount <= u64::MAX,
    ensures
        conservation(split_accounts(s, amount)),
{
}

/// Conservation under merging: the counterpart of
/// `lemma_split_preserves_conservation` for the inverse operation.
pub proof fn lemma_merge_preserves_conservation(s: MarketAccounts, amount: u64)
    requires
        conservation(s),
        amount <= s.vault_balance,
    ensures
        conservation(merge_accounts(s, amount)),
{
}

/// One position-engine operation, for stating laws over whole sequences of
/// them.
pub enum MarketOp {
    Split { amount: u64 },
    Merge { amount: u64 },
}

/// What one operation does to the market's accounts.
pub open spec fn apply_op(s: MarketAccounts, op: MarketOp) -> MarketAccounts {
    match op {
        MarketOp::Split { amount } => split_accounts(s, amount),
        MarketOp::Merge { amount } => merge_accounts(s, amount),
    }
}

/// What a sequence of operations, applied left to right, does to the
/// market's accounts.
pub open spec fn apply_ops(s: MarketAccounts, ops: Seq<MarketOp>) -> MarketAccounts
    decreases ops.len(),
{
    if ops.len() == 0 {
        s
    } else {
        apply_ops(apply_op(s, ops[0]), ops.subrange(1, ops.len() as int))
    }
}

/// Conservation over every sequence of splits and merges: starting from a
/// market whose pool backs both claim supplies — a fresh market, with all
/// three at zero — the pool backs both supplies after any sequence of the
/// two operations, whatever the amounts.
pub proof fn lemma_conservation_over_any_sequence(s: MarketAccounts, ops: Seq<MarketOp>)
    requires
        conservation(s),
    ensures
        conservation(apply_ops(s, ops)),
    decreases ops.len(),
{
    if ops.len() > 0 {
        lemma_conservation_over_any_sequence(apply_op(s, ops[0]), ops.subrange(1, ops.len() as int));
    }
}

/// Claim backing: once a market is settled, any one holder's winning
/// claims are covered by the collateral still in the pool, so the
/// redemption payout can always be made in full.
pub proof fn lemma_settled_market_is_solvent(s: MarketAccounts, p: Position)
    requires
        market_inv(s),
        s.market.is_settled,
        position_wf(s, p),
    ensures
        payout_amount(s, p) <= s.vault_balance,
{
}

/// The inverse law: merging an amount straight after splitting it restores
/// the market's accounts and the caller's position exactly — a round trip
/// with zero net state change.
pub proof fn lemma_split_merge_round_trip(s: MarketAccounts, p: Position, amount: u64)
    requires
        p.base >= amount,
        s.vault_balance + amount <= u64::MAX,
        s.outcome_a.supply + amount <= u64::MAX,
        s.outcome_b.supply + amount <= u64::MAX,
        p.outcome_a + amount <= u64::MAX,
        p.outcome_b + amount <= u64::MAX,
    ensures
        merge_accounts(split_accounts(s, amount), amount) == s,
        merge_position(split_position(p, amount), amount) == p,
{
}

/// Settlement happens exactly once: a first legal settlement records its
/// winner and closes the market, and on the result no further settlement
/// is legal, whatever side a second call would name — the recorded winner
/// can only ever be the first one.
pub proof fn lemma_settlement_exactly_once(
    s: MarketAccounts,
    first: WinningOutcome,
    second: WinningOutcome,
)
    requires
        settle_ok(s, first),
    ensures
        settle_accounts(s, first).market.is_settled,
        settle_accounts(s, first).market.winning_outcome == Some(first),
        !settle_ok(settle_accounts(s, first), second),
{
}

/// The post-settlement freeze: settling revokes the mint authority of both
/// claim tokens — so `ledger::mint` fails on either, by its contract — and
/// no further split is legal.
pub proof fn lemma_post_settlement_freeze(s: MarketAccounts, winner: WinningOutcome)
    requires
        settle_ok(s, winner),
    ensures
        !settle_accounts(s, winner).outcome_a.has_mint_authority,
        !settle_accounts(s, winner).outcome_b.has_mint_authority,
        !split_ok(settle_accounts(s, winner)),
{
}

/// Redemption is idempotent: after one redemption the holder's claim
/// balances are zero, so a second redemption is still legal, pays nothing,
/// and changes neither the market's accounts nor the position — it never
/// errors and never double-pays.
pub proof fn lemma_claim_rewards_idempotent(s: MarketAccounts, p: Position)
    requires
        market_inv(s),
        s.market.is_settled,
        position_wf(s, p),
        p.base + payout_amount(s, p) <= u64::MAX,
    ensures
        claim_ok(claim_accounts(s, p)),
        payout_amount(claim_accounts(s, p), claim_position(s, p)) == 0,
        claim_accounts(claim_accounts(s, p), claim_position(s, p)) == claim_accounts(s, p),
        claim_position(claim_accounts(s, p), claim_position(s, p)) == claim_position(s, p),
{
}

} // verus!
