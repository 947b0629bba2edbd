use crate::address::Address;
use crate::derivation::{derive_address, program_address_of};
use crate::errors::CustomError;
use vstd::prelude::*;

verus! {

/// Deployment configuration: the identity allowed to initialise collections
/// and update metadata.
#[derive(Clone, Copy, Debug)]
pub struct AuthorityConfig {
    pub server_authority: Address,
}

impl AuthorityConfig {
    pub fn new(server_authority: Address) -> (r: AuthorityConfig)
        ensures
            r.server_authority == server_authority,
    {
        AuthorityConfig { server_authority }
    }

    /// Whether `signer` is the server authority and signed the request.
    pub open spec fn approves(&self, signer: Address, signed: bool) -> bool {
        signed && signer@ == self.server_authority@
    }

    /// Fails with `UnauthorizedUpdate` unless the server authority signed.
    pub fn require_server_authority(&self, signer: &Address, signed: bool) -> (r: Result<
        (),
        CustomError,
    >)
        ensures
            self.approves(*signer, signed) ==> r is Ok,
            !self.approves(*signer, signed) ==> r == Err::<(), CustomError>(
                CustomError::UnauthorizedUpdate,
            ),
    {
        if signed && signer.same(&self.server_authority) {
            Ok(())
        } else {
            Err(CustomError::UnauthorizedUpdate)
        }
    }
}

/// Fails with `InvalidOwner` unless `owner` signed the request.
pub fn require_asset_owner(signer: &Address, signed: bool, owner: &Address) -> (r: Result<
    (),
    CustomError,
>)
    ensures
        (signed && signer@ == owner@) ==> r is Ok,
        !(signed && signer@ == owner@) ==> r == Err::<(), CustomError>(CustomError::InvalidOwner),
{
    if signed && signer.same(owner) {
        Ok(())
    } else {
        Err(CustomError::InvalidOwner)
    }
}

/// Checks that `account` is the address this program derives from `tag` and
/// `id`, and returns its bump seed.
pub fn require_program_authority(account: &Address, tag: &Vec<u8>, id: &Address, program: &Address) -> (r:
    Result<u8, CustomError>)
    ensures
        (program_address_of(seq![tag@, id@], program@) matches Some(p) && p.0 == account@) ==> r
            == Ok::<u8, CustomError>(program_address_of(seq![tag@, id@], program@)->Some_0.1),
        !(program_address_of(seq![tag@, id@], program@) matches Some(p) && p.0 == account@) ==> r
            == Err::<u8, CustomError>(CustomError::InvalidPdaDerivation),
{
    match derive_address(tag, id, program) {
        Some(p) => {
            if p.0.same(account) {
                Ok(p.1)
            } else {
                Err(CustomError::InvalidPdaDerivation)
            }
        },
        None => Err(CustomError::InvalidPdaDerivation),
    }
}

} // verus!
