use vstd::prelude::*;

use crate::error::LedgerError;
use crate::state::MintState;

verus! {

/// Creates `amount` new units of the asset `m`, credited to the balance
/// `to`. Fails, moving nothing, once the asset's mint authority has been
/// revoked.
pub fn mint(m: &mut MintState, to: &mut u64, amount: u64) -> (r: Result<(), LedgerError>)
    requires
        old(m).supply + amount <= u64::MAX,
        *old(to) + amount <= u64::MAX,
    ensures
        old(m).has_mint_authority ==> {
            &&& r is Ok
            &&& final(m).supply == old(m).supply + amount
            &&& *final(to) == *old(to) + amount
        },
        !old(m).has_mint_authority ==> {
            &&& r == Err::<(), LedgerError>(LedgerError::NoMintAuthority)
            &&& *final(m) == *old(m)
            &&& *final(to) == *old(to)
        },
        final(m).has_mint_authority == old(m).has_mint_authority,
{
    if m.has_mint_authority {
        m.supply = m.supply + amount;
        *to = *to + amount;
        Ok(())
    } else {
        Err(LedgerError::NoMintAuthority)
    }
}

/// Destroys `amount` units of the asset `m` held in the balance `from`.
/// Fails, destroying nothing, if the balance is short.
pub fn burn(m: &mut MintState, from: &mut u64, amount: u64) -> (r: Result<(), LedgerError>)
    requires
        *old(from) <= old(m).supply,
    ensures
        *old(from) >= amount ==> {
            &&& r is Ok
            &&& final(m).supply == old(m).supply - amount
            &&& *final(from) == *old(from) - amount
        },
        *old(from) < amount ==> {
            &&& r == Err::<(), LedgerError>(LedgerError::InsufficientFunds)
            &&& *final(m) == *old(m)
            &&& *final(from) == *old(from)
        },
        final(m).has_mint_authority == old(m).has_mint_authority,
{
    if *from >= amount {
        m.supply = m.supply - amount;
        *from = *from - amount;
        Ok(())
    } else {
        Err(LedgerError::InsufficientFunds)
    }
}

/// Moves `amount` units from one balance to another, all or nothing.
/// Fails, moving nothing, if the source balance is short.
pub fn transfer(from: &mut u64, to: &mut u64, amount: u64) -> (r: Result<(), LedgerError>)
    requires
        *old(to) + amount <= u64::MAX,
    ensures
        *old(from) >= amount ==> {
            &&& r is Ok
            &&& *final(from) == *old(from) - amount
            &&& *final(to) == *old(to) + amount
        },
        *old(from) < amount ==> {
            &&& r == Err::<(), LedgerError>(LedgerError::InsufficientFunds)
            &&& *final(from) == *old(from)
            &&& *final(to) == *old(to)
        },
{
    if *from >= amount {
        *from = *from - amount;
        *to = *to + amount;
        Ok(())
    } else {
        Err(LedgerError::InsufficientFunds)
    }
}

/// Permanently removes the ability to mint the asset `m`; its supply is
/// frozen at its current value.
pub fn revoke_mint_authority(m: &mut MintState)
    ensures
        final(m).supply == old(m).supply,
        !final(m).has_mint_authority,
{
    m.has_mint_authority = false;
}

} // verus!
