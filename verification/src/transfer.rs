use crate::account::{UserAccount, UserAccountView};
use crate::address::Address;
use crate::error::CustomError;
use vstd::prelude::*;

verus! {

/// Record of a completed transfer, for observers outside the ledger.
#[derive(Clone, Copy, Debug, PartialEq, Eq, Hash)]
pub struct TokenTransferEvent {
    /// Authority of the account that paid.
    pub from: Address,
    /// Authority of the account that was paid.
    pub to: Address,
    /// Units moved.
    pub amount: u64,
    /// Unix time at which the transfer was made.
    pub timestamp: i64,
}

/// What the rules say of moving `amount` from `sender` to `receiver`.
///
/// The checks run in this order and the first that fails decides: the
/// amount, the sender's funds, the sender's activity, the receiver's
/// activity, and at last whether the receiver's balance can hold the sum.
pub open spec fn transfer_verdict(sender: UserAccountView, receiver: UserAccountView, amount: u64) -> Result<
    (),
    CustomError,
> {
    if amount == 0 {
        Err(CustomError::InvalidAmount)
    } else if sender.balance < amount {
        Err(CustomError::InsufficientFunds)
    } else if !sender.is_active {
        Err(CustomError::AccountInactive)
    } else if !receiver.is_active {
        Err(CustomError::AccountInactive)
    } else if receiver.balance + amount > u64::MAX {
        Err(CustomError::MathOverflow)
    } else {
        Ok(())
    }
}

/// The event that a transfer of `amount` between the two records leaves.
pub open spec fn transfer_event(sender: UserAccountView, receiver: UserAccountView, amount: u64, now: i64) -> TokenTransferEvent {
    TokenTransferEvent { from: sender.authority, to: receiver.authority, amount, timestamp: now }
}

/// One hundredth of `amount`, rounded down.
pub open spec fn spec_fee(amount: u64) -> u64 {
    (amount / 100) as u64
}

/// Judges a transfer and computes the balances it would leave, the
/// sender's first, without writing them.
///
/// Both sums are formed with checked arithmetic, after the four checks on
/// the request.
pub fn settle(sender: &UserAccount, receiver: &UserAccount, amount: u64) -> (settled: Result<
    (u64, u64),
    CustomError,
>)
    ensures
        match settled {
            Ok((debited, credited)) => {
                &&& transfer_verdict(sender@, receiver@, amount) is Ok
                &&& debited == sender.balance - amount
                &&& credited == receiver.balance + amount
            },
            Err(error) => transfer_verdict(sender@, receiver@, amount) == Err::<(), CustomError>(
                error,
            ),
        },
{
    if amount == 0 {
        return Err(CustomError::InvalidAmount);
    }
    if sender.balance < amount {
        return Err(CustomError::InsufficientFunds);
    }
    if !sender.is_active {
        return Err(CustomError::AccountInactive);
    }
    if !receiver.is_active {
        return Err(CustomError::AccountInactive);
    }
    let debited = match sender.balance.checked_sub(amount) {
        Some(balance) => balance,
        None => {
            return Err(CustomError::MathOverflow);
        },
    };
    let credited = match receiver.balance.checked_add(amount) {
        Some(balance) => balance,
        None => {
            return Err(CustomError::MathOverflow);
        },
    };
    Ok((debited, credited))
}

/// Moves `amount` from `sender` to `receiver` and reports the event to emit.
///
/// Both new balances are settled before either is written: a rejected
/// transfer leaves both records as they were.
pub fn transfer(sender: &mut UserAccount, receiver: &mut UserAccount, amount: u64, now: i64) -> (done:
    Result<TokenTransferEvent, CustomError>)
    ensures
        match done {
            Ok(event) => {
                &&& transfer_verdict(old(sender)@, old(receiver)@, amount) is Ok
                &&& final(sender)@ == old(sender)@.with_balance((old(sender).balance - amount) as u64)
                &&& final(receiver)@ == old(receiver)@.with_balance(
                    (old(receiver).balance + amount) as u64,
                )
                &&& final(sender).balance + final(receiver).balance == old(sender).balance + old(
                    receiver,
                ).balance
                &&& event == transfer_event(old(sender)@, old(receiver)@, amount, now)
            },
            Err(error) => {
                &&& transfer_verdict(old(sender)@, old(receiver)@, amount) == Err::<(), CustomError>(
                    error,
                )
                &&& *final(sender) == *old(sender)
                &&& *final(receiver) == *old(receiver)
            },
        },
{
    match settle(sender, receiver, amount) {
        Err(error) => Err(error),
        Ok((debited, credited)) => {
            sender.balance = debited;
            receiver.balance = credited;
            Ok(
                TokenTransferEvent {
                    from: sender.authority,
                    to: receiver.authority,
                    amount,
                    timestamp: now,
                },
            )
        },
    }
}

/// The fee on `amount`: one hundredth of it, the remainder dropped.
///
/// No transfer charges it.
pub fn calculate_fee(amount: u64) -> (fee: u64)
    ensures
        fee == spec_fee(amount),
        fee == amount / 100,
{
    amount / 100
}

} // verus!
