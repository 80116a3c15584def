use crate::account::{UserAccount, UserAccountView};
use crate::address::{derive_address, found_view, spec_derive, Address, USER_SEED};
use crate::error::CustomError;
use vstd::prelude::*;

verus! {

/// Whether a derivation found exactly the address `supplied`.
pub open spec fn binding_holds(derived: Option<(Seq<u8>, u8)>, supplied: Address) -> bool {
    match derived {
        Some((address, _)) => address == supplied@,
        None => false,
    }
}

/// Whether `address` is the one derived for `authority` under the user tag.
pub open spec fn is_bound(address: Address, authority: Address) -> bool {
    binding_holds(spec_derive(USER_SEED@, authority), address)
}

/// What the guard says once the derivation for `owner` is known: the signer
/// must be the owner, and the address supplied the one derived.
pub open spec fn guard_verdict(
    owner: Address,
    claimed_authority: Address,
    supplied_address: Address,
    derived: Option<(Seq<u8>, u8)>,
) -> Result<(), CustomError> {
    if owner != claimed_authority {
        Err(CustomError::OwnershipMismatch)
    } else if !binding_holds(derived, supplied_address) {
        Err(CustomError::AddressMismatch)
    } else {
        Ok(())
    }
}

/// What the guard says of a request on `record`.
pub open spec fn spec_authorize(record: UserAccountView, claimed_authority: Address, supplied_address: Address) -> Result<
    (),
    CustomError,
> {
    guard_verdict(
        record.authority,
        claimed_authority,
        supplied_address,
        spec_derive(USER_SEED@, record.authority),
    )
}

/// Two addresses are the same exactly when their bytes are.
pub proof fn lemma_address_by_bytes(a: Address, b: Address)
    ensures
        (a@ == b@) <==> (a == b),
{
    if a@ == b@ {
        assert forall|i: int| 0 <= i < 32 implies a.bytes[i] == b.bytes[i] by {
            assert(a.bytes@[i] == b.bytes@[i]);
        }
        assert(a.bytes =~= b.bytes);
    }
}

/// Tells whether the derivation `derived` found the address `supplied`.
pub fn matches_derived(derived: &Option<(Address, u8)>, supplied: &Address) -> (bound: bool)
    ensures
        bound == binding_holds(found_view(*derived), *supplied),
{
    match derived {
        Some((address, _)) => {
            proof {
                lemma_address_by_bytes(*address, *supplied);
            }
            *address == *supplied
        },
        None => false,
    }
}

/// Tells whether `address` is the one derived for `authority`.
pub fn check_binding(address: &Address, authority: &Address) -> (bound: bool)
    ensures
        bound == is_bound(*address, *authority),
{
    let derived = derive_address(&USER_SEED, authority);
    matches_derived(&derived, address)
}

/// The guard, given the derivation for the record's authority.
///
/// Ownership is judged first: a signer who is not the recorded authority
/// is told so whatever address was supplied.
pub fn authorize_derived(
    record: &UserAccount,
    claimed_authority: &Address,
    supplied_address: &Address,
    derived: &Option<(Address, u8)>,
) -> (verdict: Result<(), CustomError>)
    ensures
        verdict == guard_verdict(
            record.authority,
            *claimed_authority,
            *supplied_address,
            found_view(*derived),
        ),
{
    if record.authority != *claimed_authority {
        Err(CustomError::OwnershipMismatch)
    } else if !matches_derived(derived, supplied_address) {
        Err(CustomError::AddressMismatch)
    } else {
        Ok(())
    }
}

/// Decides whether `claimed_authority` may change `record`, kept at
/// `supplied_address`.
///
/// Fails with `OwnershipMismatch` where the signer is not the record's
/// authority, else with `AddressMismatch` where the address is not the one
/// derived for that authority.
pub fn authorize(record: &UserAccount, claimed_authority: &Address, supplied_address: &Address) -> (verdict:
    Result<(), CustomError>)
    ensures
        verdict == spec_authorize(record@, *claimed_authority, *supplied_address),
{
    if record.authority != *claimed_authority {
        return Err(CustomError::OwnershipMismatch);
    }
    let derived = derive_address(&USER_SEED, &record.authority);
    authorize_derived(record, claimed_authority, supplied_address, &derived)
}

} // verus!
