use crate::address::Address;
use crate::constants::MAX_SUPPLY;
use crate::derivation::{derived, master_tag, vault_tag};
use crate::errors::CustomError;
use crate::ledger::Ledger;
use crate::state::required_balance;
use vstd::prelude::*;

verus! {

/// Minting an asset and then burning it as its owner succeeds, gives the
/// owner back every lamport the mint took, and leaves the collection's count,
/// the vaults and the assets as they were before the mint.
pub proof fn lemma_mint_then_burn_round_trip(
    before: Ledger,
    minted: Ledger,
    after: Ledger,
    owner: Address,
    asset: Address,
    collection: Address,
    created: Result<(), u32>,
)
    requires
        before.wf(),
        before.mint_outcome(owner, asset, collection, created) is Ok,
        before.mint_effect(&minted, owner, asset, collection),
        minted.burn_effect(&after, owner, asset),
    ensures
        minted.burn_outcome(owner, true, asset, Ok(())) is Ok,
        after.balance_of(owner@) == before.balance_of(owner@),
        after.minted_in(collection@) == before.minted_in(collection@),
        after.vaults@ == before.vaults@,
        after.assets@ == before.assets@,
{
    let v = derived(vault_tag(), asset@, before.program_id@)->Some_0;
    let m = derived(master_tag(), collection@, before.program_id@)->Some_0;
    assert(minted.assets@[asset@].collection == collection);
    assert(minted.vault_lamports(v) == required_balance(before.vault_rent));
    assert(minted.collections@[m].total_minted == before.collections@[m].total_minted + 1);
    assert(minted.balance_of(owner@) == before.balance_of(owner@) - required_balance(before.vault_rent));
    assert(after.vaults@ =~= before.vaults@);
    assert(after.assets@ =~= before.assets@);
}

/// Once a collection is initialised, initialising it again with the same
/// request fails with `AlreadyInitialized` (and the failed call changes
/// nothing).
pub proof fn lemma_initialize_twice_fails(
    before: Ledger,
    after: Ledger,
    authority: Address,
    signed: bool,
    collection: Address,
    created: Result<(), u32>,
    created_again: Result<(), u32>,
)
    requires
        before.initialize_outcome(authority, signed, collection, created) is Ok,
        before.initialize_effect(&after, collection),
    ensures
        after.initialize_outcome(authority, signed, collection, created_again) == Err::<
            (),
            CustomError,
        >(CustomError::AlreadyInitialized),
{
}

/// A mint of a new asset into a collection that has reached its maximum
/// supply fails with `MaxSupplyReached` (and the failed call creates no
/// vault, asset or count).
pub proof fn lemma_mint_at_max_supply_fails(
    ledger: Ledger,
    payer: Address,
    asset: Address,
    collection: Address,
    created: Result<(), u32>,
)
    requires
        ledger.minted_in(collection@) == Some(MAX_SUPPLY as int),
        !ledger.assets@.contains_key(asset@),
        derived(vault_tag(), asset@, ledger.program_id@) matches Some(v)
            && !ledger.vaults@.contains_key(v),
    ensures
        ledger.mint_outcome(payer, asset, collection, created) == Err::<(), CustomError>(
            CustomError::MaxSupplyReached,
        ),
{
}

/// Burning an asset whose vault does not hold exactly the locked amount plus
/// its rent-exempt minimum fails with `InvalidVaultBalance`, whatever the
/// burn would answer (and the failed call burns, moves and counts nothing).
pub proof fn lemma_burn_of_tampered_vault_fails(
    ledger: Ledger,
    owner: Address,
    asset: Address,
    burned: Result<(), u32>,
)
    requires
        required_balance(ledger.vault_rent) <= u64::MAX,
        ledger.assets@.contains_key(asset@),
        ledger.assets@[asset@].owner@ == owner@,
        derived(vault_tag(), asset@, ledger.program_id@) matches Some(v) && ledger.vault_lamports(v)
            != required_balance(ledger.vault_rent),
    ensures
        ledger.burn_outcome(owner, true, asset, burned) == Err::<(), CustomError>(
            CustomError::InvalidVaultBalance,
        ),
{
}

/// After an asset is minted, every other mint of the same asset fails with
/// `DuplicateVault`, whatever collection it targets. The first mint counted
/// exactly one asset.
pub proof fn lemma_second_mint_of_asset_fails(
    before: Ledger,
    after: Ledger,
    payer: Address,
    asset: Address,
    collection: Address,
    created: Result<(), u32>,
    other_payer: Address,
    other_collection: Address,
    other_created: Result<(), u32>,
)
    requires
        before.mint_outcome(payer, asset, collection, created) is Ok,
        before.mint_effect(&after, payer, asset, collection),
    ensures
        after.mint_outcome(other_payer, asset, other_collection, other_created) == Err::<
            (),
            CustomError,
        >(CustomError::DuplicateVault),
        before.minted_in(collection@) matches Some(n) && after.minted_in(collection@) == Some(n + 1),
{
    let v = derived(vault_tag(), asset@, before.program_id@)->Some_0;
    assert(after.vaults@.contains_key(v));
}

/// The supply counter never wraps: a burn never succeeds while the
/// collection of the asset counts no minted assets, and a successful burn
/// lowers a count of `n` to exactly `n - 1`.
pub proof fn lemma_burn_never_wraps_counter(
    before: Ledger,
    after: Ledger,
    owner: Address,
    signed: bool,
    asset: Address,
    burned: Result<(), u32>,
)
    requires
        before.assets@.contains_key(asset@),
    ensures
        before.minted_in(before.assets@[asset@].collection@) == Some(0int) ==> before.burn_outcome(
            owner,
            signed,
            asset,
            burned,
        ) is Err,
        before.burn_outcome(owner, signed, asset, burned) is Ok && before.burn_effect(
            &after,
            owner,
            asset,
        ) ==> (before.minted_in(before.assets@[asset@].collection@) matches Some(n) ==> after.minted_in(
            before.assets@[asset@].collection@,
        ) == Some(n - 1)),
{
}

} // verus!
