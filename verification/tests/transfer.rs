use user_ledger::account::UserAccount;
use user_ledger::address::Address;
use user_ledger::error::CustomError;
use user_ledger::transfer::{calculate_fee, settle, transfer, TokenTransferEvent};

fn key(fill: u8) -> Address {
    Address { bytes: [fill; 32] }
}

fn account(fill: u8, name: &str, balance: u64) -> UserAccount {
    UserAccount {
        authority: key(fill),
        name: name.to_string(),
        age: 30,
        balance,
        is_active: true,
        created_at: 11,
    }
}

#[test]
fn transfer_moves_the_amount() {
    let mut sender = account(1, "Alice", 1000);
    let mut receiver = account(2, "Bob", 40);
    let event = transfer(&mut sender, &mut receiver, 300, 1_700_000_123).unwrap();
    assert_eq!(sender, account(1, "Alice", 700));
    assert_eq!(receiver, account(2, "Bob", 340));
    assert_eq!(
        event,
        TokenTransferEvent { from: key(1), to: key(2), amount: 300, timestamp: 1_700_000_123 }
    );
}

#[test]
fn transfer_conserves_the_total() {
    let mut sender = account(1, "Alice", 987_654_321);
    let mut receiver = account(2, "Bob", 123_456_789);
    let before = sender.balance as u128 + receiver.balance as u128;
    transfer(&mut sender, &mut receiver, 555_555, 0).unwrap();
    assert_eq!(sender.balance as u128 + receiver.balance as u128, before);
    assert_eq!(sender.balance, 987_098_766);
    assert_eq!(receiver.balance, 124_012_344);
}

#[test]
fn transfer_may_empty_the_sender() {
    let mut sender = account(1, "Alice", 5);
    let mut receiver = account(2, "Bob", 0);
    assert!(transfer(&mut sender, &mut receiver, 5, 0).is_ok());
    assert_eq!(sender.balance, 0);
    assert_eq!(receiver.balance, 5);
}

#[test]
fn transfer_may_fill_the_receiver_to_the_brim() {
    let mut sender = account(1, "Alice", 10);
    let mut receiver = account(2, "Bob", u64::MAX - 10);
    assert!(transfer(&mut sender, &mut receiver, 10, 0).is_ok());
    assert_eq!(sender.balance, 0);
    assert_eq!(receiver.balance, u64::MAX);
}

#[test]
fn transfer_refuses_amount_zero() {
    let mut sender = account(1, "Alice", 10);
    let mut receiver = account(2, "Bob", 0);
    assert_eq!(transfer(&mut sender, &mut receiver, 0, 0), Err(CustomError::InvalidAmount));
    assert_eq!(sender, account(1, "Alice", 10));
    assert_eq!(receiver, account(2, "Bob", 0));
}

#[test]
fn transfer_refuses_an_overdraft() {
    let mut sender = account(1, "Alice", 10);
    let mut receiver = account(2, "Bob", 3);
    assert_eq!(transfer(&mut sender, &mut receiver, 11, 0), Err(CustomError::InsufficientFunds));
    assert_eq!(sender, account(1, "Alice", 10));
    assert_eq!(receiver, account(2, "Bob", 3));
}

#[test]
fn transfer_refuses_an_inactive_sender() {
    let mut sender = UserAccount { is_active: false, ..account(1, "Alice", 10) };
    let mut receiver = account(2, "Bob", 3);
    assert_eq!(transfer(&mut sender, &mut receiver, 5, 0), Err(CustomError::AccountInactive));
    assert_eq!(sender.balance, 10);
    assert_eq!(receiver.balance, 3);
}

#[test]
fn transfer_refuses_an_inactive_receiver() {
    let mut sender = account(1, "Alice", 10);
    let mut receiver = UserAccount { is_active: false, ..account(2, "Bob", 3) };
    assert_eq!(transfer(&mut sender, &mut receiver, 5, 0), Err(CustomError::AccountInactive));
    assert_eq!(sender.balance, 10);
    assert_eq!(receiver.balance, 3);
}

#[test]
fn transfer_refuses_to_overflow_the_receiver() {
    let mut sender = account(1, "Alice", 10);
    let mut receiver = account(2, "Bob", u64::MAX - 9);
    assert_eq!(transfer(&mut sender, &mut receiver, 10, 0), Err(CustomError::MathOverflow));
    assert_eq!(sender.balance, 10);
    assert_eq!(receiver.balance, u64::MAX - 9);
}

#[test]
fn transfer_checks_the_amount_first() {
    let mut sender = UserAccount { is_active: false, ..account(1, "Alice", 0) };
    let mut receiver = UserAccount { is_active: false, ..account(2, "Bob", u64::MAX) };
    assert_eq!(transfer(&mut sender, &mut receiver, 0, 0), Err(CustomError::InvalidAmount));
}

#[test]
fn transfer_checks_the_funds_before_activity() {
    let mut sender = UserAccount { is_active: false, ..account(1, "Alice", 4) };
    let mut receiver = UserAccount { is_active: false, ..account(2, "Bob", u64::MAX) };
    assert_eq!(transfer(&mut sender, &mut receiver, 5, 0), Err(CustomError::InsufficientFunds));
}

#[test]
fn transfer_checks_activity_before_overflow() {
    let mut sender = account(1, "Alice", 5);
    let mut receiver = UserAccount { is_active: false, ..account(2, "Bob", u64::MAX) };
    assert_eq!(transfer(&mut sender, &mut receiver, 5, 0), Err(CustomError::AccountInactive));
}

#[test]
fn transfer_charges_no_fee() {
    let mut sender = account(1, "Alice", 10_000);
    let mut receiver = account(2, "Bob", 0);
    transfer(&mut sender, &mut receiver, 10_000, 0).unwrap();
    assert_eq!(receiver.balance, 10_000);
}

#[test]
fn settle_computes_without_writing() {
    let sender = account(1, "Alice", 1000);
    let receiver = account(2, "Bob", 40);
    assert_eq!(settle(&sender, &receiver, 300), Ok((700, 340)));
    assert_eq!(settle(&sender, &receiver, 1001), Err(CustomError::InsufficientFunds));
    assert_eq!(settle(&sender, &receiver, 0), Err(CustomError::InvalidAmount));
    assert_eq!(sender.balance, 1000);
}

#[test]
fn fee_is_a_hundredth_rounded_down() {
    assert_eq!(calculate_fee(0), 0);
    assert_eq!(calculate_fee(99), 0);
    assert_eq!(calculate_fee(100), 1);
    assert_eq!(calculate_fee(199), 1);
    assert_eq!(calculate_fee(12_345), 123);
    assert_eq!(calculate_fee(u64::MAX), 184_467_440_737_095_516);
}
