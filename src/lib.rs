//! Custodial escrow for non-fungible assets: minting an asset locks a fixed
//! amount of lamports in a vault derived from the asset, and burning the asset
//! releases the vault to its owner.

pub mod address;
pub mod derivation;
pub mod constants;
pub mod errors;
pub mod state;
pub mod rent;
pub mod authority;
pub mod store;
pub mod ledger;
pub mod laws;
