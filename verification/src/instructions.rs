use crate::account::{check_profile, name_view, profile_verdict, record_update_verdict};
use crate::account::{UserAccount, UserAccountView};
use crate::address::Address;
use crate::error::{CustomError, InstructionError};
use crate::guard::{authorize, check_binding, is_bound, spec_authorize};
use crate::transfer::{settle, transfer, transfer_event, transfer_verdict, TokenTransferEvent};
use anchor_lang::prelude::{Clock, SolanaSysvar};
use vstd::prelude::*;

verus! {

/// A request to create the record of `authority` at `user_address`.
#[derive(Clone, Debug, PartialEq, Eq)]
pub struct InitializeUser {
    /// The slot to fill; what it held before is overwritten.
    pub user: UserAccount,
    /// Where the record is to be kept.
    pub user_address: Address,
    /// The signer, who becomes the record's authority.
    pub authority: Address,
}

/// A request to change name or age of the record kept at `user_address`.
#[derive(Clone, Debug, PartialEq, Eq)]
pub struct UpdateUser {
    /// The record to change.
    pub user: UserAccount,
    /// Where the record is kept.
    pub user_address: Address,
    /// The signer.
    pub authority: Address,
}

/// A request to move funds from `sender` to `receiver`.
///
/// The two records are distinct slots of the ledger: the host hands none
/// of them out twice.
#[derive(Clone, Debug, PartialEq, Eq)]
pub struct TransferTokens {
    /// The record that pays.
    pub sender: UserAccount,
    /// Where the paying record is kept.
    pub sender_address: Address,
    /// The record that is paid. Its owner does not sign.
    pub receiver: UserAccount,
    /// Where the paid record is kept.
    pub receiver_address: Address,
    /// The signer, who must own `sender`.
    pub authority: Address,
}

/// A request to switch off the record kept at `user_address`.
#[derive(Clone, Debug, PartialEq, Eq)]
pub struct DeactivateUser {
    /// The record to switch off.
    pub user: UserAccount,
    /// Where the record is kept.
    pub user_address: Address,
    /// The signer.
    pub authority: Address,
}

/// An [`InitializeUser`] as the contracts see it.
pub struct InitializeUserView {
    pub user: UserAccountView,
    pub user_address: Address,
    pub authority: Address,
}

/// An [`UpdateUser`] as the contracts see it.
pub struct UpdateUserView {
    pub user: UserAccountView,
    pub user_address: Address,
    pub authority: Address,
}

/// A [`TransferTokens`] as the contracts see it.
pub struct TransferTokensView {
    pub sender: UserAccountView,
    pub sender_address: Address,
    pub receiver: UserAccountView,
    pub receiver_address: Address,
    pub authority: Address,
}

/// A [`DeactivateUser`] as the contracts see it.
pub struct DeactivateUserView {
    pub user: UserAccountView,
    pub user_address: Address,
    pub authority: Address,
}

impl View for InitializeUser {
    type V = InitializeUserView;

    open spec fn view(&self) -> InitializeUserView {
        InitializeUserView {
            user: self.user@,
            user_address: self.user_address,
            authority: self.authority,
        }
    }
}

impl View for UpdateUser {
    type V = UpdateUserView;

    open spec fn view(&self) -> UpdateUserView {
        UpdateUserView {
            user: self.user@,
            user_address: self.user_address,
            authority: self.authority,
        }
    }
}

impl View for TransferTokens {
    type V = TransferTokensView;

    open spec fn view(&self) -> TransferTokensView {
        TransferTokensView {
            sender: self.sender@,
            sender_address: self.sender_address,
            receiver: self.receiver@,
            receiver_address: self.receiver_address,
            authority: self.authority,
        }
    }
}

impl View for DeactivateUser {
    type V = DeactivateUserView;

    open spec fn view(&self) -> DeactivateUserView {
        DeactivateUserView {
            user: self.user@,
            user_address: self.user_address,
            authority: self.authority,
        }
    }
}

/// What the rules say of a request to initialize: the address must be the
/// one derived for the signer, then the name and the age are judged.
pub open spec fn initialize_verdict(ctx: InitializeUserView, name: Seq<char>, age: u8) -> Result<
    (),
    CustomError,
> {
    if !is_bound(ctx.user_address, ctx.authority) {
        Err(CustomError::AddressMismatch)
    } else {
        profile_verdict(name, age)
    }
}

/// The request after initializing at time `now`, or why it was turned down.
pub open spec fn initialize_outcome(ctx: InitializeUserView, name: Seq<char>, age: u8, now: i64) -> Result<
    InitializeUserView,
    CustomError,
> {
    match initialize_verdict(ctx, name, age) {
        Err(error) => Err(error),
        Ok(()) => Ok(
            InitializeUserView { user: UserAccountView::fresh(ctx.authority, name, age, now), ..ctx },
        ),
    }
}

/// The request as an attempt to initialize at time `now` leaves it.
pub open spec fn initialize_after(ctx: InitializeUserView, name: Seq<char>, age: u8, now: i64) -> InitializeUserView {
    match initialize_outcome(ctx, name, age, now) {
        Ok(next) => next,
        Err(_) => ctx,
    }
}

/// What the rules say of a request to update: the guard first, then the
/// new values, and at last whether the record is still active.
pub open spec fn update_request_verdict(
    ctx: UpdateUserView,
    new_name: Option<Seq<char>>,
    new_age: Option<u8>,
) -> Result<(), CustomError> {
    match spec_authorize(ctx.user, ctx.authority, ctx.user_address) {
        Err(error) => Err(error),
        Ok(()) => record_update_verdict(ctx.user, new_name, new_age),
    }
}

/// The request after updating, or why it was turned down.
pub open spec fn update_outcome(ctx: UpdateUserView, new_name: Option<Seq<char>>, new_age: Option<u8>) -> Result<
    UpdateUserView,
    CustomError,
> {
    match update_request_verdict(ctx, new_name, new_age) {
        Err(error) => Err(error),
        Ok(()) => Ok(UpdateUserView { user: ctx.user.updated(new_name, new_age), ..ctx }),
    }
}

/// The request as an attempt to update leaves it.
pub open spec fn update_after(ctx: UpdateUserView, new_name: Option<Seq<char>>, new_age: Option<u8>) -> UpdateUserView {
    match update_outcome(ctx, new_name, new_age) {
        Ok(next) => next,
        Err(_) => ctx,
    }
}

/// What the guard says of a request to transfer: the signer must own the
/// sender at its derived address, and the receiver must be kept at the
/// address derived for its own authority.
pub open spec fn transfer_guard(ctx: TransferTokensView) -> Result<(), CustomError> {
    match spec_authorize(ctx.sender, ctx.authority, ctx.sender_address) {
        Err(error) => Err(error),
        Ok(()) => if is_bound(ctx.receiver_address, ctx.receiver.authority) {
            Ok(())
        } else {
            Err(CustomError::AddressMismatch)
        },
    }
}

/// What the rules say of a request to transfer: the guard first, then the
/// checks on the amount and the two records.
pub open spec fn transfer_request_verdict(ctx: TransferTokensView, amount: u64) -> Result<
    (),
    CustomError,
> {
    match transfer_guard(ctx) {
        Err(error) => Err(error),
        Ok(()) => transfer_verdict(ctx.sender, ctx.receiver, amount),
    }
}

/// The request after the transfer.
pub open spec fn transferred(ctx: TransferTokensView, amount: u64) -> TransferTokensView {
    TransferTokensView {
        sender: ctx.sender.with_balance((ctx.sender.balance - amount) as u64),
        receiver: ctx.receiver.with_balance((ctx.receiver.balance + amount) as u64),
        ..ctx
    }
}

/// The request after transferring at time `now`, with the event to emit,
/// or why it was turned down.
pub open spec fn transfer_outcome(ctx: TransferTokensView, amount: u64, now: i64) -> Result<
    (TransferTokensView, TokenTransferEvent),
    CustomError,
> {
    match transfer_request_verdict(ctx, amount) {
        Err(error) => Err(error),
        Ok(()) => Ok((transferred(ctx, amount), transfer_event(ctx.sender, ctx.receiver, amount, now))),
    }
}

/// The request as an attempt to transfer leaves it, whatever the time.
pub open spec fn transfer_after(ctx: TransferTokensView, amount: u64) -> TransferTokensView {
    if transfer_request_verdict(ctx, amount) is Ok {
        transferred(ctx, amount)
    } else {
        ctx
    }
}

/// The request after deactivating, or why it was turned down.
pub open spec fn deactivate_outcome(ctx: DeactivateUserView) -> Result<
    DeactivateUserView,
    CustomError,
> {
    match spec_authorize(ctx.user, ctx.authority, ctx.user_address) {
        Err(error) => Err(error),
        Ok(()) => if ctx.user.is_active {
            Ok(DeactivateUserView { user: ctx.user.deactivated(), ..ctx })
        } else {
            Err(CustomError::AccountAlreadyInactive)
        },
    }
}

/// The request as an attempt to deactivate leaves it.
pub open spec fn deactivate_after(ctx: DeactivateUserView) -> DeactivateUserView {
    match deactivate_outcome(ctx) {
        Ok(next) => next,
        Err(_) => ctx,
    }
}

/// Asks the host for the time through `Clock::get` and hands out the
/// reading's `unix_timestamp`, or nothing where the host has no clock to
/// offer.
///
/// Trusted, and nothing is claimed of the reading.
#[verifier::external_body]
fn unix_timestamp() -> (reading: Option<i64>) {
    match Clock::get() {
        Ok(clock) => Some(clock.unix_timestamp),
        Err(_) => None,
    }
}

/// Judges a request to initialize without carrying it out.
pub fn check_initialize(ctx: &InitializeUser, name: &str, age: u8) -> (verdict: Result<
    (),
    CustomError,
>)
    ensures
        verdict == initialize_verdict(ctx@, name@, age),
{
    if !check_binding(&ctx.user_address, &ctx.authority) {
        Err(CustomError::AddressMismatch)
    } else {
        check_profile(name, age)
    }
}

/// Creates the signer's record as of the time `now`.
///
/// Fails with `AddressMismatch` where the slot is not the one derived for
/// the signer, else with `NameTooLong` or `InvalidAge`; a request turned
/// down is left as it was.
pub fn initialize_user_at(ctx: &mut InitializeUser, name: String, age: u8, now: i64) -> (done: Result<
    (),
    CustomError,
>)
    ensures
        match done {
            Ok(()) => initialize_outcome(old(ctx)@, name@, age, now) == Ok::<
                InitializeUserView,
                CustomError,
            >(final(ctx)@),
            Err(error) => {
                &&& initialize_outcome(old(ctx)@, name@, age, now) == Err::<
                    InitializeUserView,
                    CustomError,
                >(error)
                &&& *final(ctx) == *old(ctx)
            },
        },
        final(ctx)@ == initialize_after(old(ctx)@, name@, age, now),
{
    if !check_binding(&ctx.user_address, &ctx.authority) {
        return Err(CustomError::AddressMismatch);
    }
    match UserAccount::create(ctx.authority, name, age, now) {
        Err(error) => Err(error),
        Ok(record) => {
            ctx.user = record;
            Ok(())
        },
    }
}

/// Creates the signer's record, stamped with the host's time.
///
/// The rules decide before the clock does: a request they reject is
/// reported as `Rejected` whatever the clock said, and `ClockUnavailable`
/// tells that the request was in order.
pub fn initialize_user(ctx: &mut InitializeUser, name: String, age: u8) -> (done: Result<
    (),
    InstructionError,
>)
    ensures
        match done {
            Ok(()) => initialize_outcome(old(ctx)@, name@, age, final(ctx).user.created_at) == Ok::<
                InitializeUserView,
                CustomError,
            >(final(ctx)@),
            Err(InstructionError::Rejected(error)) => {
                &&& initialize_verdict(old(ctx)@, name@, age) == Err::<(), CustomError>(error)
                &&& *final(ctx) == *old(ctx)
            },
            Err(InstructionError::ClockUnavailable) => {
                &&& initialize_verdict(old(ctx)@, name@, age) is Ok
                &&& *final(ctx) == *old(ctx)
            },
        },
{
    match unix_timestamp() {
        Some(now) => match initialize_user_at(ctx, name, age, now) {
            Ok(()) => Ok(()),
            Err(error) => Err(InstructionError::Rejected(error)),
        },
        None => match check_initialize(ctx, name.as_str(), age) {
            Ok(()) => Err(InstructionError::ClockUnavailable),
            Err(error) => Err(InstructionError::Rejected(error)),
        },
    }
}

/// Changes name or age of the signer's record.
///
/// The guard runs first, then each value present is judged, and at last
/// the record: one that has been deactivated fails with `AccountInactive`.
/// Nothing is written unless all of it passes.
pub fn update_user(ctx: &mut UpdateUser, new_name: Option<String>, new_age: Option<u8>) -> (done:
    Result<(), CustomError>)
    ensures
        match done {
            Ok(()) => update_outcome(old(ctx)@, name_view(new_name), new_age) == Ok::<
                UpdateUserView,
                CustomError,
            >(final(ctx)@),
            Err(error) => {
                &&& update_outcome(old(ctx)@, name_view(new_name), new_age) == Err::<
                    UpdateUserView,
                    CustomError,
                >(error)
                &&& *final(ctx) == *old(ctx)
            },
        },
        final(ctx)@ == update_after(old(ctx)@, name_view(new_name), new_age),
{
    match authorize(&ctx.user, &ctx.authority, &ctx.user_address) {
        Err(error) => Err(error),
        Ok(()) => ctx.user.update(new_name, new_age),
    }
}

/// Runs the guard of a transfer: the sender's authorization, then the
/// receiver's address.
pub fn authorize_transfer(ctx: &TransferTokens) -> (verdict: Result<(), CustomError>)
    ensures
        verdict == transfer_guard(ctx@),
{
    match authorize(&ctx.sender, &ctx.authority, &ctx.sender_address) {
        Err(error) => Err(error),
        Ok(()) => if check_binding(&ctx.receiver_address, &ctx.receiver.authority) {
            Ok(())
        } else {
            Err(CustomError::AddressMismatch)
        },
    }
}

/// Judges a request to transfer without carrying it out.
pub fn check_transfer(ctx: &TransferTokens, amount: u64) -> (verdict: Result<(), CustomError>)
    ensures
        verdict == transfer_request_verdict(ctx@, amount),
{
    match authorize_transfer(ctx) {
        Err(error) => Err(error),
        Ok(()) => match settle(&ctx.sender, &ctx.receiver, amount) {
            Err(error) => Err(error),
            Ok(_) => Ok(()),
        },
    }
}

/// Moves `amount` from the sender to the receiver as of the time `now`,
/// and reports the event to emit.
///
/// A request turned down is left as it was.
pub fn transfer_tokens_at(ctx: &mut TransferTokens, amount: u64, now: i64) -> (done: Result<
    TokenTransferEvent,
    CustomError,
>)
    ensures
        match done {
            Ok(event) => transfer_outcome(old(ctx)@, amount, now) == Ok::<
                (TransferTokensView, TokenTransferEvent),
                CustomError,
            >((final(ctx)@, event)),
            Err(error) => {
                &&& transfer_outcome(old(ctx)@, amount, now) == Err::<
                    (TransferTokensView, TokenTransferEvent),
                    CustomError,
                >(error)
                &&& *final(ctx) == *old(ctx)
            },
        },
        final(ctx)@ == transfer_after(old(ctx)@, amount),
{
    match authorize_transfer(ctx) {
        Err(error) => Err(error),
        Ok(()) => transfer(&mut ctx.sender, &mut ctx.receiver, amount, now),
    }
}

/// Moves `amount` from the sender to the receiver, stamps the event with
/// the host's time and reports it.
///
/// The rules decide before the clock does, as for [`initialize_user`].
pub fn transfer_tokens(ctx: &mut TransferTokens, amount: u64) -> (done: Result<
    TokenTransferEvent,
    InstructionError,
>)
    ensures
        match done {
            Ok(event) => transfer_outcome(old(ctx)@, amount, event.timestamp) == Ok::<
                (TransferTokensView, TokenTransferEvent),
                CustomError,
            >((final(ctx)@, event)),
            Err(InstructionError::Rejected(error)) => {
                &&& transfer_request_verdict(old(ctx)@, amount) == Err::<(), CustomError>(error)
                &&& *final(ctx) == *old(ctx)
            },
            Err(InstructionError::ClockUnavailable) => {
                &&& transfer_request_verdict(old(ctx)@, amount) is Ok
                &&& *final(ctx) == *old(ctx)
            },
        },
{
    match unix_timestamp() {
        Some(now) => match transfer_tokens_at(ctx, amount, now) {
            Ok(event) => Ok(event),
            Err(error) => Err(InstructionError::Rejected(error)),
        },
        None => match check_transfer(ctx, amount) {
            Ok(()) => Err(InstructionError::ClockUnavailable),
            Err(error) => Err(InstructionError::Rejected(error)),
        },
    }
}

/// Switches the signer's record off.
///
/// The guard runs first; a record that is off already is reported as
/// `AccountAlreadyInactive`.
pub fn deactivate_user(ctx: &mut DeactivateUser) -> (done: Result<(), CustomError>)
    ensures
        match done {
            Ok(()) => deactivate_outcome(old(ctx)@) == Ok::<DeactivateUserView, CustomError>(
                final(ctx)@,
            ),
            Err(error) => {
                &&& deactivate_outcome(old(ctx)@) == Err::<DeactivateUserView, CustomError>(error)
                &&& *final(ctx) == *old(ctx)
            },
        },
        final(ctx)@ == deactivate_after(old(ctx)@),
{
    match authorize(&ctx.user, &ctx.authority, &ctx.user_address) {
        Err(error) => Err(error),
        Ok(()) => ctx.user.deactivate(),
    }
}

} // verus!
