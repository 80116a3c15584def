use crate::address::Address;
use crate::error::CustomError;
use vstd::prelude::*;
use vstd::utf8::encode_utf8;

verus! {

/// Width of the header that marks a stored record as a user account.
pub const DISCRIMINATOR_LEN: usize = 8;

/// Width of a stored [`Address`].
pub const ADDRESS_LEN: usize = 32;

/// Width of the length prefix that precedes the stored name.
pub const NAME_PREFIX_LEN: usize = 4;

/// The most bytes a name may take.
pub const MAX_NAME_LEN: usize = 32;

/// A user's record in the ledger.
#[derive(Clone, Debug, PartialEq, Eq)]
pub struct UserAccount {
    /// The identity that owns the record; fixed when the record is made.
    pub authority: Address,
    /// Display name, at most [`MAX_NAME_LEN`] bytes of UTF-8.
    pub name: String,
    /// Age in years, never zero.
    pub age: u8,
    /// What the account holds, in the smallest unit.
    pub balance: u64,
    /// Cleared once, by deactivation, and never set again; a record with
    /// the flag cleared takes no update and no transfer.
    pub is_active: bool,
    /// Unix time at which the record was made.
    pub created_at: i64,
}

/// A [`UserAccount`] as the contracts see it: the name as its characters.
pub struct UserAccountView {
    pub authority: Address,
    pub name: Seq<char>,
    pub age: u8,
    pub balance: u64,
    pub is_active: bool,
    pub created_at: i64,
}

impl View for UserAccount {
    type V = UserAccountView;

    open spec fn view(&self) -> UserAccountView {
        UserAccountView {
            authority: self.authority,
            name: self.name@,
            age: self.age,
            balance: self.balance,
            is_active: self.is_active,
            created_at: self.created_at,
        }
    }
}

/// The number of bytes that `name` takes once encoded as UTF-8.
pub open spec fn name_len(name: Seq<char>) -> nat {
    encode_utf8(name).len()
}

/// The characters of an optional name.
pub open spec fn name_view(name: Option<String>) -> Option<Seq<char>> {
    match name {
        Some(text) => Some(text@),
        None => None,
    }
}

/// What the rules say of a name and an age: the name is judged first.
pub open spec fn profile_verdict(name: Seq<char>, age: u8) -> Result<(), CustomError> {
    if name_len(name) > MAX_NAME_LEN {
        Err(CustomError::NameTooLong)
    } else if age == 0 {
        Err(CustomError::InvalidAge)
    } else {
        Ok(())
    }
}

/// What the rules say of the new values of a change to name and age, each
/// judged only where it is present, the name first.
pub open spec fn update_verdict(new_name: Option<Seq<char>>, new_age: Option<u8>) -> Result<
    (),
    CustomError,
> {
    if new_name is Some && name_len(new_name->0) > MAX_NAME_LEN {
        Err(CustomError::NameTooLong)
    } else if new_age == Some(0u8) {
        Err(CustomError::InvalidAge)
    } else {
        Ok(())
    }
}

/// What the rules say of a change to the name and age of `record`: the
/// new values are judged first, and a record that has been deactivated
/// takes no change, whatever the values.
pub open spec fn record_update_verdict(
    record: UserAccountView,
    new_name: Option<Seq<char>>,
    new_age: Option<u8>,
) -> Result<(), CustomError> {
    match update_verdict(new_name, new_age) {
        Err(error) => Err(error),
        Ok(()) => if record.is_active {
            Ok(())
        } else {
            Err(CustomError::AccountInactive)
        },
    }
}

impl UserAccountView {
    /// The record that creation writes.
    pub open spec fn fresh(authority: Address, name: Seq<char>, age: u8, now: i64) -> UserAccountView {
        UserAccountView { authority, name, age, balance: 0, is_active: true, created_at: now }
    }

    /// The bounds that every record keeps: a name of at most
    /// [`MAX_NAME_LEN`] bytes and an age above zero.
    pub open spec fn well_formed(self) -> bool {
        &&& name_len(self.name) <= MAX_NAME_LEN
        &&& self.age > 0
    }

    /// The record with name and age replaced where a new value is given.
    pub open spec fn updated(self, new_name: Option<Seq<char>>, new_age: Option<u8>) -> UserAccountView {
        UserAccountView {
            name: if new_name is Some { new_name->0 } else { self.name },
            age: if new_age is Some { new_age->0 } else { self.age },
            ..self
        }
    }

    /// The record with its balance replaced.
    pub open spec fn with_balance(self, balance: u64) -> UserAccountView {
        UserAccountView { balance, ..self }
    }

    /// The record switched off.
    pub open spec fn deactivated(self) -> UserAccountView {
        UserAccountView { is_active: false, ..self }
    }

    /// Whether the record is active and carries a name and a positive age.
    pub open spec fn is_valid(self) -> bool {
        self.is_active && self.name.len() > 0 && self.age > 0
    }
}

/// Judges a name and an age by the rules for a new record.
pub fn check_profile(name: &str, age: u8) -> (verdict: Result<(), CustomError>)
    ensures
        verdict == profile_verdict(name@, age),
{
    if name.as_bytes().len() > MAX_NAME_LEN {
        Err(CustomError::NameTooLong)
    } else if age == 0 {
        Err(CustomError::InvalidAge)
    } else {
        Ok(())
    }
}

/// Judges the new values of a change to name and age, each only where it
/// is present.
pub fn check_update(new_name: &Option<String>, new_age: Option<u8>) -> (verdict: Result<
    (),
    CustomError,
>)
    ensures
        verdict == update_verdict(name_view(*new_name), new_age),
{
    if let Some(name) = new_name {
        if name.as_str().as_bytes().len() > MAX_NAME_LEN {
            return Err(CustomError::NameTooLong);
        }
    }
    if let Some(age) = new_age {
        if age == 0 {
            return Err(CustomError::InvalidAge);
        }
    }
    Ok(())
}

impl UserAccount {
    /// Bytes set aside for a stored record: the header, the authority, the
    /// name with its length prefix at its longest, the age, the balance, the
    /// activity flag and the creation time.
    pub const LEN: usize = 8 + 32 + 4 + 32 + 1 + 8 + 1 + 8;

    /// Makes the record of a new user: no balance, active, stamped with `now`.
    ///
    /// Fails with `NameTooLong` or `InvalidAge` where the rules reject the
    /// name or the age.
    pub fn create(authority: Address, name: String, age: u8, now: i64) -> (made: Result<
        UserAccount,
        CustomError,
    >)
        ensures
            match made {
                Ok(record) => {
                    &&& profile_verdict(name@, age) is Ok
                    &&& record@ == UserAccountView::fresh(authority, name@, age, now)
                    &&& record@.well_formed()
                },
                Err(error) => profile_verdict(name@, age) == Err::<(), CustomError>(error),
            },
    {
        match check_profile(name.as_str(), age) {
            Err(error) => Err(error),
            Ok(()) => Ok(
                UserAccount { authority, name, age, balance: 0, is_active: true, created_at: now },
            ),
        }
    }

    /// Replaces name and age where a new value is given.
    ///
    /// The values are judged first, then the record: one that has been
    /// deactivated is changed no more and the request fails with
    /// `AccountInactive`. Nothing is written unless all of it passes, so a
    /// rejected request leaves the record as it was.
    pub fn update(&mut self, new_name: Option<String>, new_age: Option<u8>) -> (done: Result<
        (),
        CustomError,
    >)
        ensures
            done == record_update_verdict(old(self)@, name_view(new_name), new_age),
            done is Ok ==> final(self)@ == old(self)@.updated(name_view(new_name), new_age),
            done is Err ==> *final(self) == *old(self),
            done is Ok && old(self)@.well_formed() ==> final(self)@.well_formed(),
    {
        match check_update(&new_name, new_age) {
            Err(error) => Err(error),
            Ok(()) => {
                if !self.is_active {
                    return Err(CustomError::AccountInactive);
                }
                if let Some(name) = new_name {
                    self.name = name;
                }
                if let Some(age) = new_age {
                    self.age = age;
                }
                Ok(())
            },
        }
    }

    /// Switches the record off, once.
    ///
    /// Fails with `AccountAlreadyInactive` where it is off already.
    pub fn deactivate(&mut self) -> (done: Result<(), CustomError>)
        ensures
            old(self).is_active ==> done is Ok && final(self)@ == old(self)@.deactivated(),
            !old(self).is_active ==> done == Err::<(), CustomError>(
                CustomError::AccountAlreadyInactive,
            ) && *final(self) == *old(self),
    {
        if !self.is_active {
            return Err(CustomError::AccountAlreadyInactive);
        }
        self.is_active = false;
        Ok(())
    }
}

/// Whether `account` is active and carries a name and a positive age.
pub fn is_account_valid(account: &UserAccount) -> (valid: bool)
    ensures
        valid == account@.is_valid(),
{
    account.is_active && !account.name.as_str().is_empty() && account.age > 0
}

/// The size set aside for a record is the sum of its parts.
pub proof fn lemma_len_is_sum_of_widths()
    ensures
        UserAccount::LEN == DISCRIMINATOR_LEN + ADDRESS_LEN + (NAME_PREFIX_LEN + MAX_NAME_LEN) + 1
            + 8 + 1 + 8,
        UserAccount::LEN == 94,
{
}

} // verus!
