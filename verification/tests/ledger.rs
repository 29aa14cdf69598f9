use sol_prediction_market::error::LedgerError;
use sol_prediction_market::ledger::{burn, mint, revoke_mint_authority, transfer};
use sol_prediction_market::state::MintState;

#[test]
fn mint_credits_and_grows_supply() {
    let mut m: MintState = MintState { supply: 5, has_mint_authority: true };
    let mut to: u64 = 2;
    assert_eq!(mint(&mut m, &mut to, 7), Ok(()));
    assert_eq!(m.supply, 12);
    assert_eq!(to, 9);
}

#[test]
fn burn_debits_and_shrinks_supply() {
    let mut m: MintState = MintState { supply: 12, has_mint_authority: true };
    let mut from: u64 = 9;
    assert_eq!(burn(&mut m, &mut from, 4), Ok(()));
    assert_eq!(m.supply, 8);
    assert_eq!(from, 5);
}

#[test]
fn burn_fails_on_short_balance() {
    let mut m: MintState = MintState { supply: 12, has_mint_authority: true };
    let mut from: u64 = 3;
    assert_eq!(burn(&mut m, &mut from, 4), Err(LedgerError::InsufficientFunds));
    assert_eq!(m.supply, 12);
    assert_eq!(from, 3);
}

#[test]
fn transfer_moves_exactly_the_amount() {
    let mut from: u64 = 10;
    let mut to: u64 = 1;
    assert_eq!(transfer(&mut from, &mut to, 6), Ok(()));
    assert_eq!(from, 4);
    assert_eq!(to, 7);
}

#[test]
fn transfer_fails_on_short_balance() {
    let mut from: u64 = 4;
    let mut to: u64 = 7;
    assert_eq!(transfer(&mut from, &mut to, 5), Err(LedgerError::InsufficientFunds));
    assert_eq!(from, 4);
    assert_eq!(to, 7);
}

#[test]
fn revocation_is_permanent_and_stops_minting() {
    let mut m: MintState = MintState { supply: 8, has_mint_authority: true };
    revoke_mint_authority(&mut m);
    assert!(!m.has_mint_authority);
    assert_eq!(m.supply, 8);
    let mut to: u64 = 0;
    assert_eq!(mint(&mut m, &mut to, 1), Err(LedgerError::NoMintAuthority));
    assert_eq!(m.supply, 8);
    assert_eq!(to, 0);
}
