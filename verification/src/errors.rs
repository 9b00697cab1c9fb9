use vstd::prelude::*;

verus! {

/// Why an operation was refused.
#[derive(Clone, Copy, Debug, PartialEq, Eq, Structural)]
pub enum StateFiError {
    /// The fee rate is above 100%.
    InvalidFeeBasisPoints,
    /// The caller is not the administrator.
    Unauthorized,
    /// The deposit is not pending.
    InvalidDepositStatus,
    /// The withdrawal is not pending.
    InvalidWithdrawalStatus,
    /// The amount is zero.
    InvalidAmount,
    /// A text field is longer than its limit.
    StringTooLong,
    /// The vault does not belong to the user of the record.
    InvalidVaultOwner,
    /// A token account is not held by the expected vault or administrator.
    InvalidTokenAccountOwner,
    /// A token account is of another token type.
    InvalidMint,
    /// The token type is not whitelisted, or its entry is switched off.
    TokenNotActive,
    /// The paying account holds less than the amount to move.
    InsufficientFunds,
    /// The caller does not own the profile.
    InvalidOwner,
    /// The record to create exists already.
    AccountAlreadyInUse,
    /// The receiving account cannot hold the amount to move.
    BalanceOverflow,
    /// A record that the operation works on does not exist.
    AccountNotInitialized,
}

impl StateFiError {
    /// The text of the message, as a sequence of characters.
    pub open spec fn message_text(self) -> Seq<char> {
        match self {
            StateFiError::InvalidFeeBasisPoints => "Invalid fee basis points (must be <= 10000)"@,
            StateFiError::Unauthorized => "Unauthorized access"@,
            StateFiError::InvalidDepositStatus => "Invalid deposit status"@,
            StateFiError::InvalidWithdrawalStatus => "Invalid withdrawal status"@,
            StateFiError::InvalidAmount => "Invalid amount"@,
            StateFiError::StringTooLong => "String too long"@,
            StateFiError::InvalidVaultOwner => "Invalid vault owner"@,
            StateFiError::InvalidTokenAccountOwner => "Invalid token account owner"@,
            StateFiError::InvalidMint => "Invalid mint"@,
            StateFiError::TokenNotActive => "Token not active"@,
            StateFiError::InsufficientFunds => "Insufficient funds"@,
            StateFiError::InvalidOwner => "Invalid owner"@,
            StateFiError::AccountAlreadyInUse => "Account already in use"@,
            StateFiError::BalanceOverflow => "Balance overflow"@,
            StateFiError::AccountNotInitialized => "Account not initialized"@,
        }
    }

    /// A short message for the error.
    pub fn message(&self) -> (text: &'static str)
        ensures
            text@ == self.message_text(),
    {
        match self {
            StateFiError::InvalidFeeBasisPoints => "Invalid fee basis points (must be <= 10000)",
            StateFiError::Unauthorized => "Unauthorized access",
            StateFiError::InvalidDepositStatus => "Invalid deposit status",
            StateFiError::InvalidWithdrawalStatus => "Invalid withdrawal status",
            StateFiError::InvalidAmount => "Invalid amount",
            StateFiError::StringTooLong => "String too long",
            StateFiError::InvalidVaultOwner => "Invalid vault owner",
            StateFiError::InvalidTokenAccountOwner => "Invalid token account owner",
            StateFiError::InvalidMint => "Invalid mint",
            StateFiError::TokenNotActive => "Token not active",
            StateFiError::InsufficientFunds => "Insufficient funds",
            StateFiError::InvalidOwner => "Invalid owner",
            StateFiError::AccountAlreadyInUse => "Account already in use",
            StateFiError::BalanceOverflow => "Balance overflow",
            StateFiError::AccountNotInitialized => "Account not initialized",
        }
    }
}

} // verus!
