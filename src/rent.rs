use crate::constants::VAULT_AMOUNT;
use crate::errors::CustomError;
use vstd::prelude::*;

verus! {

/// Rent-exempt minimums, as quoted by the host, of the accounts that a mint
/// creates: the vault record, the token mint and the metadata account.
#[derive(Clone, Copy, Debug)]
pub struct RentMinimums {
    pub vault: u64,
    pub mint: u64,
    pub metadata: u64,
}

/// What a mint must fund for each account it creates.
#[derive(Clone, Copy, Debug)]
pub struct ProgramRent {
    pub vault: u64,
    pub mint: u64,
    pub metadata: u64,
}

impl ProgramRent {
    /// The whole transfer a mint makes: the three amounts summed with
    /// checked addition.
    pub fn total(&self) -> (r: Result<u64, CustomError>)
        ensures
            self.vault + self.mint + self.metadata <= u64::MAX ==> r == Ok::<u64, CustomError>(
                (self.vault + self.mint + self.metadata) as u64,
            ),
            self.vault + self.mint + self.metadata > u64::MAX ==> r == Err::<u64, CustomError>(
                CustomError::Overflow,
            ),
    {
        let partial = match self.vault.checked_add(self.mint) {
            Some(v) => v,
            None => return Err(CustomError::Overflow),
        };
        match partial.checked_add(self.metadata) {
            Some(v) => Ok(v),
            None => Err(CustomError::Overflow),
        }
    }
}

/// What the vault is funded with: its rent-exempt minimum, plus the locked
/// amount when `include_vault_amount` is set.
pub open spec fn vault_share(rent: RentMinimums, include_vault_amount: bool) -> int {
    if include_vault_amount {
        VAULT_AMOUNT + rent.vault
    } else {
        rent.vault as int
    }
}

/// The amount to fund for each created account. The vault's share includes
/// the locked amount when `include_vault_amount` is set.
pub fn calculate_rent(rent: &RentMinimums, include_vault_amount: bool) -> (r: Result<
    ProgramRent,
    CustomError,
>)
    ensures
        include_vault_amount && VAULT_AMOUNT + rent.vault > u64::MAX ==> r == Err::<
            ProgramRent,
            CustomError,
        >(CustomError::Overflow),
        !(include_vault_amount && VAULT_AMOUNT + rent.vault > u64::MAX) ==> (r matches Ok(p)
            && p.vault == vault_share(*rent, include_vault_amount) && p.mint == rent.mint
            && p.metadata == rent.metadata),
{
    let vault = if include_vault_amount {
        match VAULT_AMOUNT.checked_add(rent.vault) {
            Some(v) => v,
            None => return Err(CustomError::Overflow),
        }
    } else {
        rent.vault
    };
    Ok(ProgramRent { vault, mint: rent.mint, metadata: rent.metadata })
}

/// The whole transfer a mint makes: the vault's locked amount and rent plus
/// the rent of the token mint and of the metadata account, each computed on
/// its own and summed with checked addition.
pub fn required_mint_transfer(rent: &RentMinimums) -> (r: Result<u64, CustomError>)
    ensures
        VAULT_AMOUNT + rent.vault + rent.mint + rent.metadata <= u64::MAX ==> r == Ok::<
            u64,
            CustomError,
        >((VAULT_AMOUNT + rent.vault + rent.mint + rent.metadata) as u64),
        VAULT_AMOUNT + rent.vault + rent.mint + rent.metadata > u64::MAX ==> r == Err::<
            u64,
            CustomError,
        >(CustomError::Overflow),
{
    let parts = calculate_rent(rent, true)?;
    parts.total()
}

} // verus!
