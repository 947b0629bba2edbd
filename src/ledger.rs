use crate::address::Address;
use crate::authority::{require_asset_owner, AuthorityConfig};
use crate::constants::MAX_SUPPLY;
use crate::derivation::{derived, master_address, master_tag, vault_address, vault_tag};
use crate::errors::CustomError;
use crate::state::{required_balance, required_vault_balance, MasterState, TokenVault};
use crate::store::AddressMap;
use vstd::prelude::*;

verus! {

/// A vault account: its record and the lamports it holds.
#[derive(Clone, Copy, Debug)]
pub struct VaultAccount {
    pub record: TokenVault,
    pub lamports: u64,
}

/// An asset as the token service holds it.
#[derive(Clone, Copy, Debug)]
pub struct AssetRecord {
    pub collection: Address,
    pub owner: Address,
}

/// The state the program acts on. Supply records and vaults are stored at
/// addresses derived from the collection and the asset, so a second record
/// for the same collection or asset cannot be created.
pub struct Ledger {
    pub program_id: Address,
    pub config: AuthorityConfig,
    /// Rent-exempt minimum of a vault record, as quoted by the host.
    pub vault_rent: u64,
    /// Lamports of the accounts that pay for mints and receive withdrawals.
    pub wallets: AddressMap<u64>,
    /// Supply records, keyed by their derived address.
    pub collections: AddressMap<MasterState>,
    /// Vaults, keyed by their derived address.
    pub vaults: AddressMap<VaultAccount>,
    /// Assets that exist, keyed by the asset's address.
    pub assets: AddressMap<AssetRecord>,
}

impl Ledger {
    /// The stores are well formed and every collection is within its supply.
    pub open spec fn wf(&self) -> bool {
        &&& self.wallets.wf()
        &&& self.collections.wf()
        &&& self.vaults.wf()
        &&& self.assets.wf()
        &&& self.within_supply()
        &&& self.vault_per_asset()
    }

    /// Exactly one vault exists per recorded asset: every asset has a vault
    /// for it at the address derived from the asset, and every vault backs a
    /// recorded asset from whose address its own is derived.
    pub open spec fn vault_per_asset(&self) -> bool {
        &&& forall|a: Seq<u8>| #[trigger]
            self.assets@.contains_key(a) ==> (derived(vault_tag(), a, self.program_id@) matches Some(
                v,
            ) && self.vaults@.contains_key(v) && self.vaults@[v].record.mint@ == a)
        &&& forall|v: Seq<u8>| #[trigger]
            self.vaults@.contains_key(v) ==> self.assets@.contains_key(
                self.vaults@[v].record.mint@,
            ) && derived(vault_tag(), self.vaults@[v].record.mint@, self.program_id@) == Some(v)
    }

    /// No collection has minted more than the maximum supply.
    pub open spec fn within_supply(&self) -> bool {
        forall|k: Seq<u8>| #[trigger]
            self.collections@.contains_key(k) ==> self.collections@[k].total_minted <= MAX_SUPPLY
    }

    /// Every vault holds exactly the locked amount plus its rent-exempt minimum.
    pub open spec fn vaults_funded(&self) -> bool {
        forall|k: Seq<u8>| #[trigger]
            self.vaults@.contains_key(k) ==> self.vaults@[k].lamports == required_balance(
                self.vault_rent,
            )
    }

    /// Lamports of the account `key`; an account never seen holds none.
    pub open spec fn balance_of(&self, key: Seq<u8>) -> int {
        if self.wallets@.contains_key(key) {
            self.wallets@[key] as int
        } else {
            0
        }
    }

    /// Lamports held at the vault address `key`; an address with no vault
    /// holds none.
    pub open spec fn vault_lamports(&self, key: Seq<u8>) -> int {
        if self.vaults@.contains_key(key) {
            self.vaults@[key].lamports as int
        } else {
            0
        }
    }

    /// Number of assets minted in `collection` and not yet burned, where the
    /// collection has a supply record that names it.
    pub open spec fn minted_in(&self, collection: Seq<u8>) -> Option<int> {
        match derived(master_tag(), collection, self.program_id@) {
            Some(m) => if self.collections@.contains_key(m) && self.collections@[m].collection@
                == collection {
                Some(self.collections@[m].total_minted as int)
            } else {
                None
            },
            None => None,
        }
    }

    /// The configuration fields that no operation changes.
    pub open spec fn same_setup(&self, other: &Ledger) -> bool {
        &&& other.program_id == self.program_id
        &&& other.config == self.config
        &&& other.vault_rent == self.vault_rent
    }

    /// What `initialize_collection` returns.
    pub open spec fn initialize_outcome(
        &self,
        authority: Address,
        signed: bool,
        collection: Address,
        created: Result<(), u32>,
    ) -> Result<(), CustomError> {
        if !self.config.approves(authority, signed) {
            Err(CustomError::InvalidUpdateAuthority)
        } else {
            match derived(master_tag(), collection@, self.program_id@) {
                None => Err(CustomError::InvalidPdaDerivation),
                Some(m) => if self.collections@.contains_key(m) {
                    Err(CustomError::AlreadyInitialized)
                } else {
                    match created {
                        Err(code) => Err(CustomError::ExternalCallFailed(code)),
                        Ok(_) => Ok(()),
                    }
                },
            }
        }
    }

    /// The state after a successful `initialize_collection`.
    pub open spec fn initialize_effect(&self, post: &Ledger, collection: Address) -> bool {
        let m = derived(master_tag(), collection@, self.program_id@)->Some_0;
        &&& self.same_setup(post)
        &&& post.wallets@ == self.wallets@
        &&& post.vaults@ == self.vaults@
        &&& post.assets@ == self.assets@
        &&& post.collections@ == self.collections@.insert(
            m,
            MasterState { collection, total_minted: 0 },
        )
    }

    /// What `mint_asset` returns.
    pub open spec fn mint_outcome(
        &self,
        payer: Address,
        asset: Address,
        collection: Address,
        created: Result<(), u32>,
    ) -> Result<(), CustomError> {
        match derived(vault_tag(), asset@, self.program_id@) {
            None => Err(CustomError::InvalidPdaDerivation),
            Some(v) => if self.vaults@.contains_key(v) || self.assets@.contains_key(asset@) {
                Err(CustomError::DuplicateVault)
            } else {
                match derived(master_tag(), collection@, self.program_id@) {
                    None => Err(CustomError::InvalidPdaDerivation),
                    Some(m) => if !self.collections@.contains_key(m)
                        || self.collections@[m].collection@ != collection@ {
                        Err(CustomError::InvalidCollection)
                    } else if self.collections@[m].total_minted >= MAX_SUPPLY {
                        Err(CustomError::MaxSupplyReached)
                    } else if required_balance(self.vault_rent) > u64::MAX {
                        Err(CustomError::Overflow)
                    } else if self.balance_of(payer@) < required_balance(self.vault_rent) {
                        Err(CustomError::InsufficientFunds)
                    } else {
                        match created {
                            Err(code) => Err(CustomError::ExternalCallFailed(code)),
                            Ok(_) => Ok(()),
                        }
                    },
                }
            },
        }
    }

    /// The state after a successful `mint_asset`.
    pub open spec fn mint_effect(
        &self,
        post: &Ledger,
        payer: Address,
        asset: Address,
        collection: Address,
    ) -> bool {
        let m = derived(master_tag(), collection@, self.program_id@)->Some_0;
        let v = derived(vault_tag(), asset@, self.program_id@)->Some_0;
        let required = required_balance(self.vault_rent);
        let master = self.collections@[m];
        &&& self.same_setup(post)
        &&& post.wallets@ == self.wallets@.insert(
            payer@,
            (self.balance_of(payer@) - required) as u64,
        )
        &&& post.vaults@ == self.vaults@.insert(
            v,
            VaultAccount { record: TokenVault { mint: asset }, lamports: required as u64 },
        )
        &&& post.assets@ == self.assets@.insert(
            asset@,
            AssetRecord { collection, owner: payer },
        )
        &&& post.collections@ == self.collections@.insert(
            m,
            MasterState { collection: master.collection, total_minted: (master.total_minted + 1) as u64 },
        )
    }

    /// What `burn_and_withdraw` returns.
    pub open spec fn burn_outcome(
        &self,
        owner: Address,
        signed: bool,
        asset: Address,
        burned: Result<(), u32>,
    ) -> Result<(), CustomError> {
        if !signed || !self.assets@.contains_key(asset@) || self.assets@[asset@].owner@ != owner@ {
            Err(CustomError::InvalidOwner)
        } else {
            match derived(vault_tag(), asset@, self.program_id@) {
                None => Err(CustomError::InvalidPdaDerivation),
                Some(v) => if required_balance(self.vault_rent) > u64::MAX {
                    Err(CustomError::Overflow)
                } else if self.vault_lamports(v) != required_balance(self.vault_rent) {
                    Err(CustomError::InvalidVaultBalance)
                } else {
                    match burned {
                        Err(code) => Err(CustomError::ExternalCallFailed(code)),
                        Ok(_) => match derived(
                            master_tag(),
                            self.assets@[asset@].collection@,
                            self.program_id@,
                        ) {
                            None => Err(CustomError::InvalidPdaDerivation),
                            Some(m) => if !self.collections@.contains_key(m) {
                                Err(CustomError::InvalidCollection)
                            } else if self.collections@[m].total_minted == 0 {
                                Err(CustomError::Underflow)
                            } else if self.balance_of(owner@) + self.vault_lamports(v)
                                > u64::MAX {
                                Err(CustomError::Overflow)
                            } else {
                                Ok(())
                            },
                        },
                    }
                },
            }
        }
    }

    /// The state after a successful `burn_and_withdraw`: the asset and its
    /// vault are gone, the vault's lamports went to the owner, and the
    /// collection counts one asset fewer.
    pub open spec fn burn_effect(&self, post: &Ledger, owner: Address, asset: Address) -> bool {
        let v = derived(vault_tag(), asset@, self.program_id@)->Some_0;
        let m = derived(master_tag(), self.assets@[asset@].collection@, self.program_id@)->Some_0;
        let master = self.collections@[m];
        &&& self.same_setup(post)
        &&& post.wallets@ == self.wallets@.insert(
            owner@,
            (self.balance_of(owner@) + self.vault_lamports(v)) as u64,
        )
        &&& post.vaults@ == self.vaults@.remove(v)
        &&& post.assets@ == self.assets@.remove(asset@)
        &&& post.collections@ == self.collections@.insert(
            m,
            MasterState { collection: master.collection, total_minted: (master.total_minted - 1) as u64 },
        )
    }

    /// What `update_metadata` returns.
    pub open spec fn update_outcome(
        &self,
        authority: Address,
        signed: bool,
        updated: Result<(), u32>,
    ) -> Result<(), CustomError> {
        if !self.config.approves(authority, signed) {
            Err(CustomError::UnauthorizedUpdate)
        } else {
            match updated {
                Err(code) => Err(CustomError::ExternalCallFailed(code)),
                Ok(_) => Ok(()),
            }
        }
    }
}

impl Ledger {
    /// An empty ledger for `program_id`.
    pub fn new(program_id: Address, config: AuthorityConfig, vault_rent: u64) -> (r: Ledger)
        ensures
            r.wf(),
            r.vaults_funded(),
            r.program_id == program_id,
            r.config == config,
            r.vault_rent == vault_rent,
            r.wallets@ == Map::<Seq<u8>, u64>::empty(),
            r.collections@ == Map::<Seq<u8>, MasterState>::empty(),
            r.vaults@ == Map::<Seq<u8>, VaultAccount>::empty(),
            r.assets@ == Map::<Seq<u8>, AssetRecord>::empty(),
    {
        Ledger {
            program_id,
            config,
            vault_rent,
            wallets: AddressMap::new(),
            collections: AddressMap::new(),
            vaults: AddressMap::new(),
            assets: AddressMap::new(),
        }
    }

    /// Lamports of the account `key`.
    pub fn balance(&self, key: &Address) -> (r: u64)
        requires
            self.wf(),
        ensures
            r == self.balance_of(key@),
    {
        match self.wallets.get(key) {
            Some(b) => b,
            None => 0,
        }
    }

    /// Sets the lamports of the account `key`.
    pub fn fund(&mut self, key: Address, lamports: u64)
        requires
            old(self).wf(),
        ensures
            final(self).wf(),
            old(self).vaults_funded() ==> final(self).vaults_funded(),
            old(self).same_setup(final(self)),
            final(self).wallets@ == old(self).wallets@.insert(key@, lamports),
            final(self).collections@ == old(self).collections@,
            final(self).vaults@ == old(self).vaults@,
            final(self).assets@ == old(self).assets@,
    {
        self.wallets.set(key, lamports);
    }

    /// Creates the supply record of `collection`, with nothing minted.
    /// `created` is what the token service answered to the creation of the
    /// collection itself.
    pub fn initialize_collection(
        &mut self,
        authority: &Address,
        signed: bool,
        collection: &Address,
        created: Result<(), u32>,
    ) -> (r: Result<(), CustomError>)
        requires
            old(self).wf(),
        ensures
            final(self).wf(),
            old(self).vaults_funded() ==> final(self).vaults_funded(),
            r == old(self).initialize_outcome(*authority, signed, *collection, created),
            r is Ok ==> old(self).initialize_effect(final(self), *collection),
            r is Err ==> *final(self) == *old(self),
    {
        if !(signed && authority.same(&self.config.server_authority)) {
            return Err(CustomError::InvalidUpdateAuthority);
        }
        let m = match master_address(collection, &self.program_id) {
            Some(a) => a,
            None => return Err(CustomError::InvalidPdaDerivation),
        };
        if self.collections.contains(&m) {
            return Err(CustomError::AlreadyInitialized);
        }
        if let Err(code) = created {
            return Err(CustomError::ExternalCallFailed(code));
        }
        self.collections.set(m, MasterState::new(*collection));
        Ok(())
    }

    /// Mints `asset` into `collection`: funds its vault from `payer` with the
    /// locked amount and the vault's rent, records the asset as owned by
    /// `payer`, and counts it. `created` is what the token service answered
    /// to the creation of the asset.
    pub fn mint_asset(
        &mut self,
        payer: &Address,
        asset: &Address,
        collection: &Address,
        created: Result<(), u32>,
    ) -> (r: Result<(), CustomError>)
        requires
            old(self).wf(),
        ensures
            final(self).wf(),
            old(self).vaults_funded() ==> final(self).vaults_funded(),
            r == old(self).mint_outcome(*payer, *asset, *collection, created),
            r is Ok ==> old(self).mint_effect(final(self), *payer, *asset, *collection),
            r is Err ==> *final(self) == *old(self),
    {
        let v = match vault_address(asset, &self.program_id) {
            Some(a) => a,
            None => return Err(CustomError::InvalidPdaDerivation),
        };
        if self.vaults.contains(&v) || self.assets.contains(asset) {
            return Err(CustomError::DuplicateVault);
        }
        let m = match master_address(collection, &self.program_id) {
            Some(a) => a,
            None => return Err(CustomError::InvalidPdaDerivation),
        };
        let mut master = match self.collections.get(&m) {
            Some(s) => s,
            None => return Err(CustomError::InvalidCollection),
        };
        if !master.collection.same(collection) {
            return Err(CustomError::InvalidCollection);
        }
        if master.total_minted >= MAX_SUPPLY {
            return Err(CustomError::MaxSupplyReached);
        }
        let required = match required_vault_balance(self.vault_rent) {
            Ok(a) => a,
            Err(e) => return Err(e),
        };
        let balance = self.balance(payer);
        if balance < required {
            return Err(CustomError::InsufficientFunds);
        }
        if let Err(code) = created {
            return Err(CustomError::ExternalCallFailed(code));
        }
        self.wallets.set(*payer, balance - required);
        self.vaults.set(v, VaultAccount { record: TokenVault { mint: *asset }, lamports: required });
        self.assets.set(*asset, AssetRecord { collection: *collection, owner: *payer });
        let counted = master.increment();
        assert(counted is Ok);
        self.collections.set(m, master);
        Ok(())
    }

    /// Burns `asset` and returns its vault's lamports to `owner`, after
    /// checking that `owner` signed and that the vault holds exactly what it
    /// must. `burned` is what the token service answered to the burn.
    pub fn burn_and_withdraw(
        &mut self,
        owner: &Address,
        signed: bool,
        asset: &Address,
        burned: Result<(), u32>,
    ) -> (r: Result<(), CustomError>)
        requires
            old(self).wf(),
        ensures
            final(self).wf(),
            old(self).vaults_funded() ==> final(self).vaults_funded(),
            r == old(self).burn_outcome(*owner, signed, *asset, burned),
            r is Ok ==> old(self).burn_effect(final(self), *owner, *asset),
            r is Err ==> *final(self) == *old(self),
    {
        let record = match self.assets.get(asset) {
            Some(a) => a,
            None => return Err(CustomError::InvalidOwner),
        };
        if let Err(e) = require_asset_owner(owner, signed, &record.owner) {
            return Err(e);
        }
        let v = match vault_address(asset, &self.program_id) {
            Some(a) => a,
            None => return Err(CustomError::InvalidPdaDerivation),
        };
        let vault = match self.vaults.get(&v) {
            Some(x) => x,
            None => VaultAccount { record: TokenVault { mint: *asset }, lamports: 0 },
        };
        if let Err(e) = vault.record.validate_balance(vault.lamports, self.vault_rent) {
            return Err(e);
        }
        if let Err(code) = burned {
            return Err(CustomError::ExternalCallFailed(code));
        }
        let m = match master_address(&record.collection, &self.program_id) {
            Some(a) => a,
            None => return Err(CustomError::InvalidPdaDerivation),
        };
        let mut master = match self.collections.get(&m) {
            Some(s) => s,
            None => return Err(CustomError::InvalidCollection),
        };
        if master.total_minted == 0 {
            return Err(CustomError::Underflow);
        }
        let balance = self.balance(owner);
        let credited = match balance.checked_add(vault.lamports) {
            Some(b) => b,
            None => return Err(CustomError::Overflow),
        };
        self.vaults.remove(&v);
        self.assets.remove(asset);
        self.wallets.set(*owner, credited);
        let counted = master.decrement();
        assert(counted is Ok);
        self.collections.set(m, master);
        Ok(())
    }

    /// Approves a metadata update of an asset: only the server authority may
    /// make one. `updated` is what the token service answered to the update.
    pub fn update_metadata(&self, authority: &Address, signed: bool, updated: Result<(), u32>) -> (r:
        Result<(), CustomError>)
        ensures
            r == self.update_outcome(*authority, signed, updated),
    {
        if let Err(e) = self.config.require_server_authority(authority, signed) {
            return Err(e);
        }
        match updated {
            Err(code) => Err(CustomError::ExternalCallFailed(code)),
            Ok(_) => Ok(()),
        }
    }
}

} // verus!
