//! A binary-outcome prediction market core.
//!
//! Callers deposit a collateral asset and receive a complementary pair of
//! outcome claim tokens (`split`), recombine a pair back into collateral
//! while the market is open (`merge`), fix the winning side exactly once
//! (`set_winning_side`), and redeem winning claims for collateral after
//! settlement (`claim_rewards`). The host ledger is modelled by the
//! [`ledger`] module: fungible-asset mint, burn and transfer primitives
//! over plain balances, each call all-or-nothing.

pub mod error;
pub mod instructions;
pub mod laws;
pub mod ledger;
pub mod state;
