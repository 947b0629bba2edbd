use crate::address::Address;
use crate::constants::{MAX_SUPPLY, VAULT_AMOUNT};
use crate::errors::CustomError;
use vstd::prelude::*;

verus! {

/// The lamports a vault must hold: the locked amount plus the rent-exempt
/// minimum of the vault record.
pub open spec fn required_balance(vault_rent: u64) -> int {
    VAULT_AMOUNT + vault_rent
}

/// Per-collection supply record.
#[derive(Clone, Copy, Debug)]
pub struct MasterState {
    pub collection: Address,
    pub total_minted: u64,
}

impl MasterState {
    /// Discriminator, collection, counter.
    pub const SPACE: usize = 8 + 32 + 8;

    pub open spec fn within_supply(&self) -> bool {
        self.total_minted <= MAX_SUPPLY
    }

    /// A fresh record for `collection`, with nothing minted.
    pub fn new(collection: Address) -> (r: MasterState)
        ensures
            r.collection == collection,
            r.total_minted == 0,
    {
        MasterState { collection, total_minted: 0 }
    }

    /// Counts one more minted asset.
    pub fn increment(&mut self) -> (r: Result<(), CustomError>)
        ensures
            old(self).total_minted >= MAX_SUPPLY ==> r == Err::<(), CustomError>(
                CustomError::MaxSupplyReached,
            ) && *final(self) == *old(self),
            old(self).total_minted < MAX_SUPPLY ==> r is Ok && final(self).total_minted
                == old(self).total_minted + 1 && final(self).collection == old(self).collection,
    {
        if self.total_minted >= MAX_SUPPLY {
            return Err(CustomError::MaxSupplyReached);
        }
        self.total_minted = self.total_minted + 1;
        Ok(())
    }

    /// Counts one asset fewer.
    pub fn decrement(&mut self) -> (r: Result<(), CustomError>)
        ensures
            old(self).total_minted == 0 ==> r == Err::<(), CustomError>(CustomError::Underflow)
                && *final(self) == *old(self),
            old(self).total_minted > 0 ==> r is Ok && final(self).total_minted
                == old(self).total_minted - 1 && final(self).collection == old(self).collection,
    {
        if self.total_minted == 0 {
            return Err(CustomError::Underflow);
        }
        self.total_minted = self.total_minted - 1;
        Ok(())
    }
}

/// Record of the vault that backs one asset.
#[derive(Clone, Copy, Debug)]
pub struct TokenVault {
    pub mint: Address,
}

impl TokenVault {
    /// Discriminator, asset.
    pub const SPACE: usize = 8 + 32;

    /// The lamports this vault must hold, given the rent-exempt minimum of a
    /// vault record.
    pub fn get_required_balance(&self, vault_rent: u64) -> (r: Result<u64, CustomError>)
        ensures
            required_balance(vault_rent) <= u64::MAX ==> r == Ok::<u64, CustomError>(
                (VAULT_AMOUNT + vault_rent) as u64,
            ),
            required_balance(vault_rent) > u64::MAX ==> r == Err::<u64, CustomError>(
                CustomError::Overflow,
            ),
    {
        required_vault_balance(vault_rent)
    }

    /// Checks that the vault's lamports are exactly what it must hold.
    pub fn validate_balance(&self, lamports: u64, vault_rent: u64) -> (r: Result<(), CustomError>)
        ensures
            required_balance(vault_rent) > u64::MAX ==> r == Err::<(), CustomError>(
                CustomError::Overflow,
            ),
            required_balance(vault_rent) <= u64::MAX ==> (r is Ok <==> lamports
                == required_balance(vault_rent)),
            required_balance(vault_rent) <= u64::MAX && lamports != required_balance(vault_rent)
                ==> r == Err::<(), CustomError>(CustomError::InvalidVaultBalance),
    {
        let required = self.get_required_balance(vault_rent)?;
        if lamports != required {
            return Err(CustomError::InvalidVaultBalance);
        }
        Ok(())
    }
}

/// The locked amount plus the rent-exempt minimum of a vault record, with
/// checked addition.
pub fn required_vault_balance(vault_rent: u64) -> (r: Result<u64, CustomError>)
    ensures
        required_balance(vault_rent) <= u64::MAX ==> r == Ok::<u64, CustomError>(
            (VAULT_AMOUNT + vault_rent) as u64,
        ),
        required_balance(vault_rent) > u64::MAX ==> r == Err::<u64, CustomError>(
            CustomError::Overflow,
        ),
{
    match VAULT_AMOUNT.checked_add(vault_rent) {
        Some(v) => Ok(v),
        None => Err(CustomError::Overflow),
    }
}

/// The lamports still to be moved into a vault that already holds
/// `current`, so that it holds exactly its required balance. A vault holding
/// more than that is refused.
pub fn vault_top_up(vault_rent: u64, current: u64) -> (r: Result<u64, CustomError>)
    ensures
        required_balance(vault_rent) > u64::MAX ==> r == Err::<u64, CustomError>(
            CustomError::Overflow,
        ),
        required_balance(vault_rent) <= u64::MAX && current > required_balance(vault_rent) ==> r
            == Err::<u64, CustomError>(CustomError::InvalidVaultBalance),
        required_balance(vault_rent) <= u64::MAX && current <= required_balance(vault_rent) ==> r
            == Ok::<u64, CustomError>((required_balance(vault_rent) - current) as u64),
{
    let required = required_vault_balance(vault_rent)?;
    if current > required {
        return Err(CustomError::InvalidVaultBalance);
    }
    Ok(required - current)
}

/// What a mint into `collection` must move from the payer into the vault,
/// checked against the collection's supply record and the payer's lamports.
pub fn mint_transfer(
    record: &MasterState,
    collection: &Address,
    payer_lamports: u64,
    vault_rent: u64,
    vault_lamports: u64,
) -> (r: Result<u64, CustomError>)
    ensures
        record.collection@ != collection@ ==> r == Err::<u64, CustomError>(
            CustomError::InvalidCollection,
        ),
        record.collection@ == collection@ && record.total_minted >= MAX_SUPPLY ==> r == Err::<
            u64,
            CustomError,
        >(CustomError::MaxSupplyReached),
        record.collection@ == collection@ && record.total_minted < MAX_SUPPLY
            && required_balance(vault_rent) > u64::MAX ==> r == Err::<u64, CustomError>(
            CustomError::Overflow,
        ),
        record.collection@ == collection@ && record.total_minted < MAX_SUPPLY
            && required_balance(vault_rent) <= u64::MAX && vault_lamports > required_balance(
            vault_rent,
        ) ==> r == Err::<u64, CustomError>(CustomError::InvalidVaultBalance),
        record.collection@ == collection@ && record.total_minted < MAX_SUPPLY
            && required_balance(vault_rent) <= u64::MAX && vault_lamports <= required_balance(
            vault_rent,
        ) && payer_lamports < required_balance(vault_rent) - vault_lamports ==> r == Err::<
            u64,
            CustomError,
        >(CustomError::InsufficientFunds),
        record.collection@ == collection@ && record.total_minted < MAX_SUPPLY
            && required_balance(vault_rent) <= u64::MAX && vault_lamports <= required_balance(
            vault_rent,
        ) && payer_lamports >= required_balance(vault_rent) - vault_lamports ==> r == Ok::<
            u64,
            CustomError,
        >((required_balance(vault_rent) - vault_lamports) as u64),
{
    if !record.collection.same(collection) {
        return Err(CustomError::InvalidCollection);
    }
    if record.total_minted >= MAX_SUPPLY {
        return Err(CustomError::MaxSupplyReached);
    }
    let top_up = vault_top_up(vault_rent, vault_lamports)?;
    if payer_lamports < top_up {
        return Err(CustomError::InsufficientFunds);
    }
    Ok(top_up)
}

} // verus!
