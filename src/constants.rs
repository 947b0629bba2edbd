use vstd::prelude::*;

verus! {

/// Lamports locked in the vault of every minted asset.
pub const VAULT_AMOUNT: u64 = 1000000000;

/// Number of assets a collection may have in circulation.
pub const MAX_SUPPLY: u64 = 10000;

/// Size in bytes of a token mint account.
pub const MINT_SPACE: usize = 82;

/// Size in bytes of a metadata account.
pub const METADATA_SIZE: usize = 679;

} // verus!
