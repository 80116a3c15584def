use user_ledger::account::UserAccount;
use user_ledger::address::{derive_address, Address, USER_SEED};
use user_ledger::error::CustomError;
use user_ledger::guard::{authorize, authorize_derived, check_binding, matches_derived};

fn key(fill: u8) -> Address {
    Address { bytes: [fill; 32] }
}

fn slot_of(authority: &Address) -> Address {
    derive_address(&USER_SEED, authority).unwrap().0
}

fn record(fill: u8) -> UserAccount {
    UserAccount {
        authority: key(fill),
        name: "Alice".to_string(),
        age: 30,
        balance: 0,
        is_active: true,
        created_at: 0,
    }
}

#[test]
fn owner_at_the_derived_address_passes() {
    assert_eq!(authorize(&record(1), &key(1), &slot_of(&key(1))), Ok(()));
}

#[test]
fn foreign_signer_is_an_ownership_mismatch() {
    assert_eq!(
        authorize(&record(1), &key(2), &slot_of(&key(1))),
        Err(CustomError::OwnershipMismatch)
    );
}

#[test]
fn foreign_signer_at_their_own_address_is_an_ownership_mismatch() {
    assert_eq!(
        authorize(&record(1), &key(2), &slot_of(&key(2))),
        Err(CustomError::OwnershipMismatch)
    );
}

#[test]
fn ownership_is_judged_before_the_address() {
    assert_eq!(authorize(&record(1), &key(2), &key(77)), Err(CustomError::OwnershipMismatch));
}

#[test]
fn owner_at_another_address_is_an_address_mismatch() {
    assert_eq!(
        authorize(&record(1), &key(1), &slot_of(&key(2))),
        Err(CustomError::AddressMismatch)
    );
    assert_eq!(authorize(&record(1), &key(1), &key(1)), Err(CustomError::AddressMismatch));
}

#[test]
fn inactive_record_still_passes_the_guard() {
    let off = UserAccount { is_active: false, ..record(1) };
    assert_eq!(authorize(&off, &key(1), &slot_of(&key(1))), Ok(()));
}

#[test]
fn guard_with_a_given_derivation() {
    let derived = Some((key(9), 255u8));
    assert_eq!(authorize_derived(&record(1), &key(1), &key(9), &derived), Ok(()));
    assert_eq!(
        authorize_derived(&record(1), &key(1), &key(8), &derived),
        Err(CustomError::AddressMismatch)
    );
    assert_eq!(
        authorize_derived(&record(1), &key(2), &key(9), &derived),
        Err(CustomError::OwnershipMismatch)
    );
    assert_eq!(
        authorize_derived(&record(1), &key(1), &key(9), &None),
        Err(CustomError::AddressMismatch)
    );
}

#[test]
fn a_failed_derivation_matches_nothing() {
    assert!(!matches_derived(&None, &key(0)));
    assert!(matches_derived(&Some((key(3), 1)), &key(3)));
    assert!(!matches_derived(&Some((key(3), 1)), &key(4)));
}

#[test]
fn binding_holds_only_for_the_derived_address() {
    assert!(check_binding(&slot_of(&key(5)), &key(5)));
    assert!(!check_binding(&slot_of(&key(5)), &key(6)));
    assert!(!check_binding(&key(5), &key(5)));
}
