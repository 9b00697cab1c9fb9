//! A bridge between fiat currency and fungible tokens, as a set of verified rules.
//!
//! Users register a profile and open a custodial vault; an administrator
//! whitelists token types and sets the fee on deposits. A deposit is opened
//! by the user and completed by the administrator, who pays the tokens out of
//! the treasury. A withdrawal escrows the user's tokens in the treasury and is
//! then completed or cancelled by the administrator.
//!
//! The rules come in two layers.
//!
//! * The free functions (`initiate_fiat_deposit`, `complete_fiat_deposit`, ...)
//!   take the records that an operation works on as plain values, in a
//!   context of the operation's name. Each checks its rules before it changes
//!   anything, and either commits in full or returns the first rule that was
//!   broken and leaves every record and balance as it was. The time is an
//!   argument: the caller reads the clock.
//! * A [`Ledger`] keeps the records, each at the place that its kind and its
//!   identifying fields give, finds the records of an operation and applies
//!   the same rules to them.
//!
//! Each function's contract says exactly when it succeeds, which error it
//! returns otherwise, and what it leaves behind.

pub mod config;
pub mod deposit;
pub mod errors;
pub mod fees;
pub mod identity;
pub mod keyed;
pub mod laws;
pub mod ledger;
pub mod pubkey;
pub mod registry;
pub mod state;
pub mod token;
pub mod withdrawal;

pub use crate::config::{initialize_protocol, InitializeProtocol};
pub use crate::deposit::{
    complete_fiat_deposit, initiate_fiat_deposit, CompleteFiatDeposit, InitiateFiatDeposit,
};
pub use crate::errors::StateFiError;
pub use crate::fees::{deposit_fee, split_deposit, FeeSplit};
pub use crate::identity::{create_user_profile, create_vault, CreateUserProfile, CreateVault};
pub use crate::ledger::{Ledger, LedgerView};
pub use crate::pubkey::Pubkey;
pub use crate::registry::{whitelist_token, WhitelistToken};
pub use crate::state::{
    text_len, Account, DepositStatus, FiatDeposit, FiatWithdrawal, ProtocolConfig, TokenAccount,
    TokenWhitelist, UserProfile, Vault, WithdrawalStatus, MAX_EMAIL_LEN, MAX_FEE_BASIS_POINTS,
    MAX_NAME_LEN, MAX_REFERENCE_ID_LEN, MAX_SYMBOL_LEN,
};
pub use crate::token::transfer;
pub use crate::withdrawal::{
    cancel_fiat_withdrawal, complete_fiat_withdrawal, initiate_fiat_withdrawal,
    CancelFiatWithdrawal, CompleteFiatWithdrawal, InitiateFiatWithdrawal,
};
