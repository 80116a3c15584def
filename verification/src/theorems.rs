use crate::account::{name_len, update_verdict, MAX_NAME_LEN};
use crate::error::CustomError;
use crate::guard::{is_bound, spec_authorize};
use crate::instructions::{deactivate_after, deactivate_outcome, DeactivateUserView};
use crate::instructions::{initialize_after, initialize_outcome, InitializeUserView};
use crate::instructions::{transfer_after, transfer_guard, transfer_outcome, TransferTokensView};
use crate::instructions::{update_after, update_outcome, UpdateUserView};
use crate::transfer::TokenTransferEvent;
use vstd::prelude::*;

verus! {

/// A request to initialize with a name within the limit and a positive age
/// succeeds exactly when the slot is the one derived for the signer. The
/// record it leaves holds no balance, is active, carries the time it was
/// made at and the signer as its authority, and sits at that derived
/// address.
pub proof fn lemma_initialize_makes_fresh_record(ctx: InitializeUserView, name: Seq<char>, age: u8, now: i64)
    requires
        name_len(name) <= MAX_NAME_LEN,
        age > 0,
    ensures
        initialize_outcome(ctx, name, age, now) is Ok <==> is_bound(ctx.user_address, ctx.authority),
        initialize_outcome(ctx, name, age, now) is Err ==> initialize_outcome(ctx, name, age, now)
            == Err::<InitializeUserView, CustomError>(CustomError::AddressMismatch),
        initialize_outcome(ctx, name, age, now) matches Ok(made) ==> {
            &&& made.user.balance == 0
            &&& made.user.is_active
            &&& made.user.created_at == now
            &&& made.user.authority == ctx.authority
            &&& made.user.name == name
            &&& made.user.age == age
            &&& made.user.well_formed()
            &&& made.user_address == ctx.user_address
            &&& is_bound(made.user_address, made.user.authority)
        },
{
}

/// A name over the limit is refused as too long, by initialization at a
/// properly derived slot and by an authorized update alike, whatever the
/// age given with it, and the request is left as it was.
pub proof fn lemma_long_name_rejected(
    init: InitializeUserView,
    update: UpdateUserView,
    name: Seq<char>,
    age: u8,
    new_age: Option<u8>,
    now: i64,
)
    requires
        name_len(name) > MAX_NAME_LEN,
    ensures
        is_bound(init.user_address, init.authority) ==> initialize_outcome(init, name, age, now)
            == Err::<InitializeUserView, CustomError>(CustomError::NameTooLong),
        spec_authorize(update.user, update.authority, update.user_address) is Ok ==> update_outcome(
            update,
            Some(name),
            new_age,
        ) == Err::<UpdateUserView, CustomError>(CustomError::NameTooLong),
        initialize_after(init, name, age, now) == init,
        update_after(update, Some(name), new_age) == update,
{
}

/// An age of zero is refused as invalid, by initialization at a properly
/// derived slot and by an authorized update alike, wherever the name given
/// with it is within the limit or, for an update, absent; the request is
/// left as it was.
pub proof fn lemma_zero_age_rejected(
    init: InitializeUserView,
    update: UpdateUserView,
    name: Seq<char>,
    new_name: Option<Seq<char>>,
    now: i64,
)
    requires
        name_len(name) <= MAX_NAME_LEN,
        new_name is Some ==> name_len(new_name->0) <= MAX_NAME_LEN,
    ensures
        is_bound(init.user_address, init.authority) ==> initialize_outcome(init, name, 0, now)
            == Err::<InitializeUserView, CustomError>(CustomError::InvalidAge),
        spec_authorize(update.user, update.authority, update.user_address) is Ok ==> update_outcome(
            update,
            new_name,
            Some(0u8),
        ) == Err::<UpdateUserView, CustomError>(CustomError::InvalidAge),
        initialize_after(init, name, 0, now) == init,
        update_after(update, new_name, Some(0u8)) == update,
{
}

/// A guarded transfer between two active accounts of an amount that is
/// positive, within the sender's balance and within what the receiver's
/// balance can still take, succeeds: the sender is debited and the receiver
/// credited by exactly the amount, so that their sum is what it was, nothing
/// else in the two records changes, and the event names both authorities,
/// the amount and the time.
pub proof fn lemma_transfer_conserves_total(ctx: TransferTokensView, amount: u64, now: i64)
    requires
        transfer_guard(ctx) is Ok,
        ctx.sender.is_active,
        ctx.receiver.is_active,
        0 < amount <= ctx.sender.balance,
        ctx.receiver.balance + amount <= u64::MAX,
    ensures
        transfer_outcome(ctx, amount, now) is Ok,
        transfer_outcome(ctx, amount, now) matches Ok((after, event)) ==> {
            &&& after == transfer_after(ctx, amount)
            &&& after.sender.balance == ctx.sender.balance - amount
            &&& after.receiver.balance == ctx.receiver.balance + amount
            &&& after.sender.balance + after.receiver.balance == ctx.sender.balance
                + ctx.receiver.balance
            &&& after.sender == ctx.sender.with_balance(after.sender.balance)
            &&& after.receiver == ctx.receiver.with_balance(after.receiver.balance)
            &&& event.from == ctx.sender.authority
            &&& event.to == ctx.receiver.authority
            &&& event.amount == amount
            &&& event.timestamp == now
        },
{
}

/// A guarded transfer that would carry the receiver's balance past the
/// range of `u64` is refused as an overflow, and neither balance changes.
pub proof fn lemma_transfer_overflow_rejected(ctx: TransferTokensView, amount: u64, now: i64)
    requires
        transfer_guard(ctx) is Ok,
        ctx.sender.is_active,
        ctx.receiver.is_active,
        0 < amount <= ctx.sender.balance,
        ctx.receiver.balance + amount > u64::MAX,
    ensures
        transfer_outcome(ctx, amount, now) == Err::<
            (TransferTokensView, TokenTransferEvent),
            CustomError,
        >(CustomError::MathOverflow),
        transfer_after(ctx, amount) == ctx,
{
}

/// A guarded transfer of more than the sender holds is refused for want of
/// funds, and neither balance changes.
pub proof fn lemma_overdraft_rejected(ctx: TransferTokensView, amount: u64, now: i64)
    requires
        transfer_guard(ctx) is Ok,
        amount > ctx.sender.balance,
    ensures
        transfer_outcome(ctx, amount, now) == Err::<
            (TransferTokensView, TokenTransferEvent),
            CustomError,
        >(CustomError::InsufficientFunds),
        transfer_after(ctx, amount) == ctx,
{
}

/// A guarded transfer of nothing is refused as an invalid amount.
pub proof fn lemma_zero_amount_rejected(ctx: TransferTokensView, now: i64)
    requires
        transfer_guard(ctx) is Ok,
    ensures
        transfer_outcome(ctx, 0, now) == Err::<
            (TransferTokensView, TokenTransferEvent),
            CustomError,
        >(CustomError::InvalidAmount),
        transfer_after(ctx, 0) == ctx,
{
}

/// A transfer that succeeds found both accounts active.
pub proof fn lemma_transfer_needs_active_accounts(ctx: TransferTokensView, amount: u64, now: i64)
    requires
        transfer_outcome(ctx, amount, now) is Ok,
    ensures
        ctx.sender.is_active,
        ctx.receiver.is_active,
        amount > 0,
        amount <= ctx.sender.balance,
{
}

/// Deactivating an active account as its owner succeeds and switches it
/// off; the same request made again on what the first one left is refused
/// as already inactive, and changes nothing.
pub proof fn lemma_deactivate_once(ctx: DeactivateUserView)
    requires
        spec_authorize(ctx.user, ctx.authority, ctx.user_address) is Ok,
        ctx.user.is_active,
    ensures
        deactivate_outcome(ctx) is Ok,
        deactivate_outcome(ctx) matches Ok(first) ==> {
            &&& first == deactivate_after(ctx)
            &&& !first.user.is_active
            &&& first.user == ctx.user.deactivated()
            &&& deactivate_outcome(first) == Err::<DeactivateUserView, CustomError>(
                CustomError::AccountAlreadyInactive,
            )
            &&& deactivate_after(first) == first
        },
{
}

/// A signer who is not the authority recorded in the account is told so by
/// every guarded operation, whatever else the request holds, and the
/// request is left as it was.
pub proof fn lemma_foreign_signer_rejected(
    update: UpdateUserView,
    new_name: Option<Seq<char>>,
    new_age: Option<u8>,
    transfer: TransferTokensView,
    amount: u64,
    now: i64,
    deactivate: DeactivateUserView,
)
    ensures
        update.authority != update.user.authority ==> {
            &&& update_outcome(update, new_name, new_age) == Err::<UpdateUserView, CustomError>(
                CustomError::OwnershipMismatch,
            )
            &&& update_after(update, new_name, new_age) == update
        },
        transfer.authority != transfer.sender.authority ==> {
            &&& transfer_outcome(transfer, amount, now) == Err::<
                (TransferTokensView, TokenTransferEvent),
                CustomError,
            >(CustomError::OwnershipMismatch)
            &&& transfer_after(transfer, amount) == transfer
        },
        deactivate.authority != deactivate.user.authority ==> {
            &&& deactivate_outcome(deactivate) == Err::<DeactivateUserView, CustomError>(
                CustomError::OwnershipMismatch,
            )
            &&& deactivate_after(deactivate) == deactivate
        },
{
}

/// No operation that succeeds on a record changes its authority or the
/// time it was made at, none switches an account on, and each keeps the
/// name within the limit and the age positive where they were so before.
pub proof fn lemma_record_invariants_kept(
    update: UpdateUserView,
    new_name: Option<Seq<char>>,
    new_age: Option<u8>,
    transfer: TransferTokensView,
    amount: u64,
    deactivate: DeactivateUserView,
)
    ensures
        ({
            let after = update_after(update, new_name, new_age);
            &&& after.user.authority == update.user.authority
            &&& after.user.created_at == update.user.created_at
            &&& after.user.balance == update.user.balance
            &&& after.user.is_active == update.user.is_active
            &&& update.user.well_formed() ==> after.user.well_formed()
        }),
        ({
            let after = transfer_after(transfer, amount);
            &&& after.sender.authority == transfer.sender.authority
            &&& after.receiver.authority == transfer.receiver.authority
            &&& after.sender.created_at == transfer.sender.created_at
            &&& after.receiver.created_at == transfer.receiver.created_at
            &&& after.sender.is_active == transfer.sender.is_active
            &&& after.receiver.is_active == transfer.receiver.is_active
            &&& transfer.sender.well_formed() ==> after.sender.well_formed()
            &&& transfer.receiver.well_formed() ==> after.receiver.well_formed()
        }),
        ({
            let after = deactivate_after(deactivate);
            &&& after.user.authority == deactivate.user.authority
            &&& after.user.created_at == deactivate.user.created_at
            &&& after.user.balance == deactivate.user.balance
            &&& after.user.is_active ==> deactivate.user.is_active
            &&& deactivate.user.well_formed() ==> after.user.well_formed()
        }),
{
}

/// An authorized update of a deactivated account is refused as inactive,
/// whatever valid values it brings and also where it brings none, and the
/// request is left as it was.
pub proof fn lemma_inactive_update_rejected(
    ctx: UpdateUserView,
    new_name: Option<Seq<char>>,
    new_age: Option<u8>,
)
    requires
        spec_authorize(ctx.user, ctx.authority, ctx.user_address) is Ok,
        update_verdict(new_name, new_age) is Ok,
        !ctx.user.is_active,
    ensures
        update_outcome(ctx, new_name, new_age) == Err::<UpdateUserView, CustomError>(
            CustomError::AccountInactive,
        ),
        update_after(ctx, new_name, new_age) == ctx,
{
}

/// An update that succeeds found the account active.
pub proof fn lemma_update_needs_active_account(
    ctx: UpdateUserView,
    new_name: Option<Seq<char>>,
    new_age: Option<u8>,
)
    requires
        update_outcome(ctx, new_name, new_age) is Ok,
    ensures
        ctx.user.is_active,
        update_verdict(new_name, new_age) is Ok,
        spec_authorize(ctx.user, ctx.authority, ctx.user_address) is Ok,
{
}

/// A deactivated account is at its end: no update and no deactivation
/// changes it, and no transfer changes either account where one of the two
/// is deactivated.
pub proof fn lemma_inactive_is_terminal(
    update: UpdateUserView,
    new_name: Option<Seq<char>>,
    new_age: Option<u8>,
    transfer: TransferTokensView,
    amount: u64,
    deactivate: DeactivateUserView,
)
    ensures
        !update.user.is_active ==> update_after(update, new_name, new_age) == update,
        !transfer.sender.is_active || !transfer.receiver.is_active ==> transfer_after(
            transfer,
            amount,
        ) == transfer,
        !deactivate.user.is_active ==> deactivate_after(deactivate) == deactivate,
{
}

} // verus!
