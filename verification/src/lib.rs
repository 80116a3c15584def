pub mod account;
pub mod address;
pub mod error;
pub mod guard;
pub mod instructions;
pub mod layout;
pub mod theorems;
pub mod transfer;

pub use crate::account::{is_account_valid, UserAccount};
pub use crate::address::Address;
pub use crate::error::{CustomError, InstructionError};
pub use crate::instructions::{deactivate_user, initialize_user, transfer_tokens, update_user};
pub use crate::instructions::{initialize_user_at, transfer_tokens_at};
pub use crate::instructions::{DeactivateUser, InitializeUser, TransferTokens, UpdateUser};
pub use crate::transfer::{calculate_fee, TokenTransferEvent};
