use vstd::prelude::*;

verus! {

/// Why an operation was refused. Every failure aborts the whole operation.
#[derive(Clone, Copy, Debug, PartialEq, Eq, Structural)]
pub enum CustomError {
    /// The vault does not hold exactly the locked amount plus its rent-exempt minimum.
    InvalidVaultBalance,
    /// A metadata update was not signed by the server authority.
    UnauthorizedUpdate,
    /// The collection has already minted its maximum supply.
    MaxSupplyReached,
    /// The collection has no supply record, or the record names another collection.
    InvalidCollection,
    /// An amount or counter would exceed its integer range.
    Overflow,
    /// A counter would drop below zero.
    Underflow,
    /// A collection initialisation was not signed by the server authority.
    InvalidUpdateAuthority,
    /// The paying account cannot cover the required transfer.
    InsufficientFunds,
    /// The signer does not own the asset.
    InvalidOwner,
    /// An account is not the program address derived from its seeds.
    InvalidPdaDerivation,
    /// The collection's supply record already exists.
    AlreadyInitialized,
    /// The vault (or the asset) that would be created already exists.
    DuplicateVault,
    /// The token or metadata service refused the call, with its error code.
    ExternalCallFailed(u32),
}

} // verus!
