use crate::address::Address;
use vstd::prelude::*;

verus! {

/// The address and bump seed that the runtime derives for a program from a
/// list of seeds, or `None` where no such address exists.
pub uninterp spec fn program_address_of(seeds: Seq<Seq<u8>>, program: Seq<u8>) -> Option<(Seq<u8>, u8)>;

/// Relies on `Pubkey::try_find_program_address`: the result is a function of
/// the seeds and the program id alone.
#[verifier::external_body]
fn find_program_address(tag: &Vec<u8>, id: &[u8; 32], program: &[u8; 32]) -> (r: Option<([u8; 32], u8)>)
    ensures
        r is None <==> program_address_of(seq![tag@, id@], program@) is None,
        r matches Some(p) ==> program_address_of(seq![tag@, id@], program@) == Some((p.0@, p.1)),
{
    let program_key = anchor_lang::solana_program::pubkey::Pubkey::new_from_array(*program);
    anchor_lang::solana_program::pubkey::Pubkey::try_find_program_address(
        &[tag.as_slice(), id.as_slice()],
        &program_key,
    ).map(|(key, bump)| (key.to_bytes(), bump))
}

/// Seed tag of a collection's supply record.
pub open spec fn master_tag() -> Seq<u8> {
    seq![109u8, 97u8, 115u8, 116u8, 101u8, 114u8]
}

/// Seed tag of an asset's vault.
pub open spec fn vault_tag() -> Seq<u8> {
    seq![118u8, 97u8, 117u8, 108u8, 116u8]
}

/// Seed tag of a collection's mint authority.
pub open spec fn mint_authority_tag() -> Seq<u8> {
    seq![
        109u8, 105u8, 110u8, 116u8, 95u8, 97u8, 117u8, 116u8, 104u8, 111u8, 114u8, 105u8, 116u8,
        121u8,
    ]
}

/// The address derived from a tag and an identifier under `program`.
pub open spec fn derived(tag: Seq<u8>, id: Seq<u8>, program: Seq<u8>) -> Option<Seq<u8>> {
    match program_address_of(seq![tag, id], program) {
        Some(p) => Some(p.0),
        None => None,
    }
}

/// `"master"` as bytes.
pub fn master_seed() -> (r: Vec<u8>)
    ensures
        r@ == master_tag(),
{
    let r = vec![109u8, 97u8, 115u8, 116u8, 101u8, 114u8];
    assert(r@ =~= master_tag());
    r
}

/// `"vault"` as bytes.
pub fn vault_seed() -> (r: Vec<u8>)
    ensures
        r@ == vault_tag(),
{
    let r = vec![118u8, 97u8, 117u8, 108u8, 116u8];
    assert(r@ =~= vault_tag());
    r
}

/// `"mint_authority"` as bytes.
pub fn mint_authority_seed() -> (r: Vec<u8>)
    ensures
        r@ == mint_authority_tag(),
{
    let r = vec![
        109u8, 105u8, 110u8, 116u8, 95u8, 97u8, 117u8, 116u8, 104u8, 111u8, 114u8, 105u8, 116u8, 121u8,
    ];
    assert(r@ =~= mint_authority_tag());
    r
}

/// Derives the program address for `tag` and `id`, with its bump seed.
pub fn derive_address(tag: &Vec<u8>, id: &Address, program: &Address) -> (r: Option<(Address, u8)>)
    ensures
        r is None <==> program_address_of(seq![tag@, id@], program@) is None,
        r matches Some(p) ==> program_address_of(seq![tag@, id@], program@) == Some((p.0@, p.1)),
{
    match find_program_address(tag, &id.bytes, &program.bytes) {
        Some(p) => Some((Address { bytes: p.0 }, p.1)),
        None => None,
    }
}

/// Address of the supply record of `collection`.
pub fn master_address(collection: &Address, program: &Address) -> (r: Option<Address>)
    ensures
        r matches Some(a) ==> derived(master_tag(), collection@, program@) == Some(a@),
        r is None <==> derived(master_tag(), collection@, program@) is None,
{
    match derive_address(&master_seed(), collection, program) {
        Some(p) => Some(p.0),
        None => None,
    }
}

/// Address of the vault that backs `asset`.
pub fn vault_address(asset: &Address, program: &Address) -> (r: Option<Address>)
    ensures
        r matches Some(a) ==> derived(vault_tag(), asset@, program@) == Some(a@),
        r is None <==> derived(vault_tag(), asset@, program@) is None,
{
    match derive_address(&vault_seed(), asset, program) {
        Some(p) => Some(p.0),
        None => None,
    }
}

/// Address of the mint authority of `collection`.
pub fn mint_authority_address(collection: &Address, program: &Address) -> (r: Option<Address>)
    ensures
        r matches Some(a) ==> derived(mint_authority_tag(), collection@, program@) == Some(a@),
        r is None <==> derived(mint_authority_tag(), collection@, program@) is None,
{
    match derive_address(&mint_authority_seed(), collection, program) {
        Some(p) => Some(p.0),
        None => None,
    }
}

} // verus!
