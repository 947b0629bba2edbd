use anchor_lang::solana_program::pubkey::Pubkey;
use storymint::address::Address;
use storymint::authority::{require_asset_owner, require_program_authority, AuthorityConfig};
use storymint::constants::MAX_SUPPLY;
use storymint::derivation::{
    derive_address, master_address, master_seed, mint_authority_address, mint_authority_seed,
    vault_address, vault_seed,
};
use storymint::errors::CustomError;
use storymint::rent::{calculate_rent, required_mint_transfer, ProgramRent, RentMinimums};
use storymint::state::{mint_transfer, required_vault_balance, vault_top_up, MasterState, TokenVault};
use storymint::store::AddressMap;

fn addr(b: u8) -> Address {
    Address::new([b; 32])
}

fn expected_pda(tag: &[u8], id: &Address, program: &Address) -> (Address, u8) {
    let (key, bump) =
        Pubkey::find_program_address(&[tag, &id.bytes], &Pubkey::new_from_array(program.bytes));
    (Address::new(key.to_bytes()), bump)
}

#[test]
fn required_vault_balance_adds_rent() {
    assert_eq!(required_vault_balance(890_880), Ok(1_000_890_880));
    assert_eq!(required_vault_balance(0), Ok(1_000_000_000));
    assert_eq!(required_vault_balance(u64::MAX), Err(CustomError::Overflow));
    let vault = TokenVault { mint: addr(4) };
    assert_eq!(vault.get_required_balance(1_169_280), Ok(1_001_169_280));
}

#[test]
fn validate_balance_needs_exact_amount() {
    let vault = TokenVault { mint: addr(4) };
    assert_eq!(vault.validate_balance(1_000_890_880, 890_880), Ok(()));
    assert_eq!(
        vault.validate_balance(1_000_890_879, 890_880),
        Err(CustomError::InvalidVaultBalance)
    );
    assert_eq!(
        vault.validate_balance(1_000_890_881, 890_880),
        Err(CustomError::InvalidVaultBalance)
    );
    assert_eq!(vault.validate_balance(0, u64::MAX), Err(CustomError::Overflow));
}

#[test]
fn calculate_rent_splits_by_account() {
    let rent = RentMinimums { vault: 1_169_280, mint: 1_461_600, metadata: 5_616_720 };
    let with_lock = calculate_rent(&rent, true).unwrap();
    assert_eq!(with_lock.vault, 1_001_169_280);
    assert_eq!(with_lock.mint, 1_461_600);
    assert_eq!(with_lock.metadata, 5_616_720);
    let without = calculate_rent(&rent, false).unwrap();
    assert_eq!(without.vault, 1_169_280);
    let huge = RentMinimums { vault: u64::MAX, mint: 0, metadata: 0 };
    assert!(matches!(calculate_rent(&huge, true), Err(CustomError::Overflow)));
    assert_eq!(calculate_rent(&huge, false).unwrap().vault, u64::MAX);
}

#[test]
fn mint_transfer_sums_every_account() {
    let rent = RentMinimums { vault: 1_169_280, mint: 1_461_600, metadata: 5_616_720 };
    assert_eq!(required_mint_transfer(&rent), Ok(1_008_247_600));
    let parts = ProgramRent { vault: 1, mint: 2, metadata: 3 };
    assert_eq!(parts.total(), Ok(6));
    let over = ProgramRent { vault: u64::MAX, mint: 0, metadata: 1 };
    assert_eq!(over.total(), Err(CustomError::Overflow));
    let near = RentMinimums { vault: 0, mint: u64::MAX - 1_000_000_000, metadata: 1 };
    assert_eq!(required_mint_transfer(&near), Err(CustomError::Overflow));
}

#[test]
fn supply_counter_bounds() {
    let mut state = MasterState::new(addr(2));
    assert_eq!(state.total_minted, 0);
    assert_eq!(state.decrement(), Err(CustomError::Underflow));
    assert_eq!(state.total_minted, 0);
    assert_eq!(state.increment(), Ok(()));
    assert_eq!(state.total_minted, 1);
    assert_eq!(state.decrement(), Ok(()));
    assert_eq!(state.total_minted, 0);
    let mut full = MasterState { collection: addr(2), total_minted: MAX_SUPPLY };
    assert_eq!(full.increment(), Err(CustomError::MaxSupplyReached));
    assert_eq!(full.total_minted, MAX_SUPPLY);
}

#[test]
fn derived_addresses_match_runtime() {
    let program = addr(200);
    let asset = addr(10);
    let collection = addr(2);
    let (vault, _) = expected_pda(b"vault", &asset, &program);
    assert_eq!(vault_address(&asset, &program), Some(vault));
    assert_ne!(vault, asset);
    let (master, _) = expected_pda(b"master", &collection, &program);
    assert_eq!(master_address(&collection, &program), Some(master));
    let (authority, bump) = expected_pda(b"mint_authority", &collection, &program);
    assert_eq!(mint_authority_address(&collection, &program), Some(authority));
    assert_eq!(
        derive_address(&mint_authority_seed(), &collection, &program),
        Some((authority, bump))
    );
    assert_ne!(master, vault);
}

#[test]
fn seeds_spell_their_tags() {
    assert_eq!(master_seed(), b"master".to_vec());
    assert_eq!(vault_seed(), b"vault".to_vec());
    assert_eq!(mint_authority_seed(), b"mint_authority".to_vec());
}

#[test]
fn program_authority_is_checked_by_derivation() {
    let program = addr(200);
    let collection = addr(2);
    let (authority, bump) = expected_pda(b"mint_authority", &collection, &program);
    assert_eq!(
        require_program_authority(&authority, &mint_authority_seed(), &collection, &program),
        Ok(bump)
    );
    assert_eq!(
        require_program_authority(&addr(5), &mint_authority_seed(), &collection, &program),
        Err(CustomError::InvalidPdaDerivation)
    );
    assert_eq!(
        require_program_authority(&authority, &vault_seed(), &collection, &program),
        Err(CustomError::InvalidPdaDerivation)
    );
}

#[test]
fn server_authority_gate() {
    let config = AuthorityConfig::new(addr(1));
    assert_eq!(config.require_server_authority(&addr(1), true), Ok(()));
    assert_eq!(
        config.require_server_authority(&addr(1), false),
        Err(CustomError::UnauthorizedUpdate)
    );
    assert_eq!(
        config.require_server_authority(&addr(2), true),
        Err(CustomError::UnauthorizedUpdate)
    );
}

#[test]
fn asset_owner_gate() {
    assert_eq!(require_asset_owner(&addr(3), true, &addr(3)), Ok(()));
    assert_eq!(require_asset_owner(&addr(3), false, &addr(3)), Err(CustomError::InvalidOwner));
    assert_eq!(require_asset_owner(&addr(4), true, &addr(3)), Err(CustomError::InvalidOwner));
}

#[test]
fn address_comparison() {
    let mut bytes = [7u8; 32];
    let a = Address::new(bytes);
    bytes[31] = 8;
    let b = Address::new(bytes);
    assert!(a.same(&a));
    assert!(!a.same(&b));
    assert!(a == Address::new([7u8; 32]));
    assert!(a != b);
}

#[test]
fn address_map_keeps_one_entry_per_key() {
    let mut map: AddressMap<u64> = AddressMap::new();
    assert!(map.insert_new(addr(1), 10));
    assert!(!map.insert_new(addr(1), 20));
    assert_eq!(map.get(&addr(1)), Some(10));
    map.set(addr(1), 30);
    map.set(addr(2), 40);
    assert_eq!(map.get(&addr(1)), Some(30));
    assert!(map.contains(&addr(2)));
    map.remove(&addr(1));
    assert_eq!(map.get(&addr(1)), None);
    assert_eq!(map.get(&addr(2)), Some(40));
    map.remove(&addr(9));
    assert_eq!(map.get(&addr(2)), Some(40));
}

#[test]
fn vault_top_up_moves_the_rest() {
    assert_eq!(vault_top_up(890_880, 890_880), Ok(1_000_000_000));
    assert_eq!(vault_top_up(890_880, 0), Ok(1_000_890_880));
    assert_eq!(vault_top_up(890_880, 1_000_890_880), Ok(0));
    assert_eq!(vault_top_up(890_880, 1_000_890_881), Err(CustomError::InvalidVaultBalance));
    assert_eq!(vault_top_up(u64::MAX, 0), Err(CustomError::Overflow));
}

#[test]
fn mint_transfer_checks_record_supply_and_funds() {
    let record = MasterState { collection: addr(2), total_minted: 3 };
    assert_eq!(mint_transfer(&record, &addr(2), 2_000_000_000, 890_880, 890_880), Ok(1_000_000_000));
    assert_eq!(
        mint_transfer(&record, &addr(7), 2_000_000_000, 890_880, 890_880),
        Err(CustomError::InvalidCollection)
    );
    assert_eq!(
        mint_transfer(&record, &addr(2), 999_999_999, 890_880, 890_880),
        Err(CustomError::InsufficientFunds)
    );
    assert_eq!(
        mint_transfer(&record, &addr(2), 2_000_000_000, 890_880, 1_000_890_881),
        Err(CustomError::InvalidVaultBalance)
    );
    assert_eq!(
        mint_transfer(&record, &addr(2), 2_000_000_000, u64::MAX, 0),
        Err(CustomError::Overflow)
    );
    let full = MasterState { collection: addr(2), total_minted: MAX_SUPPLY };
    assert_eq!(
        mint_transfer(&full, &addr(2), 2_000_000_000, 890_880, 890_880),
        Err(CustomError::MaxSupplyReached)
    );
}
