use vstd::prelude::*;

verus! {

/// Why a request was turned down.
///
/// The set is closed: every check the ledger makes reports exactly one of
/// these, and a request that reports one has changed nothing.
#[derive(Clone, Copy, Debug, PartialEq, Eq, Structural, Hash)]
pub enum CustomError {
    /// The name takes more than [`crate::account::MAX_NAME_LEN`] bytes.
    NameTooLong,
    /// The age is zero.
    InvalidAge,
    /// The amount to transfer is zero.
    InvalidAmount,
    /// The sender holds less than the amount to transfer.
    InsufficientFunds,
    /// The account to update, or the sender or the receiver of a transfer,
    /// has been deactivated.
    AccountInactive,
    /// The account to deactivate is inactive already.
    AccountAlreadyInactive,
    /// A balance would leave the range of `u64`.
    MathOverflow,
    /// The signer is not the authority recorded in the account.
    OwnershipMismatch,
    /// The address supplied is not the one derived for the account's authority.
    AddressMismatch,
}

/// First code of the errors raised by the ledger's own rules.
pub const ERROR_CODE_OFFSET: u32 = 6000;

/// Code under which the host framework reports a signer that does not own the
/// account.
pub const OWNERSHIP_ERROR_CODE: u32 = 2001;

/// Code under which the host framework reports an address that fails its
/// derivation.
pub const ADDRESS_ERROR_CODE: u32 = 2006;

impl CustomError {
    /// The stable number by which clients recognise the error.
    pub open spec fn spec_code(self) -> u32 {
        match self {
            CustomError::NameTooLong => 6000,
            CustomError::InvalidAge => 6001,
            CustomError::InvalidAmount => 6002,
            CustomError::InsufficientFunds => 6003,
            CustomError::AccountInactive => 6004,
            CustomError::AccountAlreadyInactive => 6005,
            CustomError::MathOverflow => 6006,
            CustomError::OwnershipMismatch => 2001,
            CustomError::AddressMismatch => 2006,
        }
    }

    /// The text shown to a person for the error.
    pub open spec fn spec_message(self) -> Seq<char> {
        match self {
            CustomError::NameTooLong => "Name is too long. Maximum 32 characters allowed."@,
            CustomError::InvalidAge => "Invalid age provided. Age must be greater than 0."@,
            CustomError::InvalidAmount => "Invalid transfer amount. Amount must be greater than 0."@,
            CustomError::InsufficientFunds => "Insufficient funds for this operation."@,
            CustomError::AccountInactive => "Account is not active."@,
            CustomError::AccountAlreadyInactive => "Account is already inactive."@,
            CustomError::MathOverflow => "Mathematical operation resulted in overflow."@,
            CustomError::OwnershipMismatch => "A has one constraint was violated"@,
            CustomError::AddressMismatch => "A seeds constraint was violated"@,
        }
    }

    /// The stable number by which clients recognise the error.
    #[verifier::when_used_as_spec(spec_code)]
    pub fn code(self) -> (code: u32)
        ensures
            code == self.spec_code(),
    {
        match self {
            CustomError::NameTooLong => ERROR_CODE_OFFSET,
            CustomError::InvalidAge => ERROR_CODE_OFFSET + 1,
            CustomError::InvalidAmount => ERROR_CODE_OFFSET + 2,
            CustomError::InsufficientFunds => ERROR_CODE_OFFSET + 3,
            CustomError::AccountInactive => ERROR_CODE_OFFSET + 4,
            CustomError::AccountAlreadyInactive => ERROR_CODE_OFFSET + 5,
            CustomError::MathOverflow => ERROR_CODE_OFFSET + 6,
            CustomError::OwnershipMismatch => OWNERSHIP_ERROR_CODE,
            CustomError::AddressMismatch => ADDRESS_ERROR_CODE,
        }
    }

    /// The text shown to a person for the error.
    pub fn message(self) -> (text: &'static str)
        ensures
            text@ == self.spec_message(),
    {
        match self {
            CustomError::NameTooLong => "Name is too long. Maximum 32 characters allowed.",
            CustomError::InvalidAge => "Invalid age provided. Age must be greater than 0.",
            CustomError::InvalidAmount => "Invalid transfer amount. Amount must be greater than 0.",
            CustomError::InsufficientFunds => "Insufficient funds for this operation.",
            CustomError::AccountInactive => "Account is not active.",
            CustomError::AccountAlreadyInactive => "Account is already inactive.",
            CustomError::MathOverflow => "Mathematical operation resulted in overflow.",
            CustomError::OwnershipMismatch => "A has one constraint was violated",
            CustomError::AddressMismatch => "A seeds constraint was violated",
        }
    }
}

/// Why an instruction that reads the host's clock did not complete.
#[derive(Clone, Copy, Debug, PartialEq, Eq, Structural, Hash)]
pub enum InstructionError {
    /// A rule of the ledger turned the request down.
    Rejected(CustomError),
    /// The request was in order, but the host could not tell the time.
    ClockUnavailable,
}

} // verus!
