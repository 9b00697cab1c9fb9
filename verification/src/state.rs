use crate::pubkey::Pubkey;
use vstd::prelude::*;
use vstd::string::StrSliceExecFns;

verus! {

/// The longest name of a user or of a token type, in characters.
pub const MAX_NAME_LEN: usize = 50;

/// The longest e-mail address, in characters.
pub const MAX_EMAIL_LEN: usize = 100;

/// The longest token symbol, in characters.
pub const MAX_SYMBOL_LEN: usize = 10;

/// The longest reference to an off-ledger transaction, in characters.
pub const MAX_REFERENCE_ID_LEN: usize = 100;

/// The highest fee rate: 10000 basis points are 100%.
pub const MAX_FEE_BASIS_POINTS: u16 = 10000;

/// The length of `text` in characters.
pub fn text_len(text: &String) -> (n: usize)
    ensures
        n == text@.len(),
{
    text.as_str().unicode_len()
}

/// The one record that names the administrator and the fee on deposits.
#[derive(Clone, Copy, Debug, PartialEq, Eq)]
pub struct ProtocolConfig {
    pub admin: Pubkey,
    /// In basis points: 10000 are 100%.
    pub admin_fee_basis_points: u16,
    pub bump: u8,
}

impl ProtocolConfig {
    /// The fee rate is at most 100%.
    pub open spec fn wf(self) -> bool {
        self.admin_fee_basis_points <= MAX_FEE_BASIS_POINTS
    }
}

/// A user's identity record.
#[derive(Debug, PartialEq, Eq)]
pub struct UserProfile {
    pub owner: Pubkey,
    pub name: String,
    pub email: String,
    pub is_kyc_verified: bool,
    pub created_at: i64,
    pub bump: u8,
}

impl Clone for UserProfile {
    fn clone(&self) -> (copy: Self)
        ensures
            copy == *self,
    {
        UserProfile {
            owner: self.owner,
            name: self.name.clone(),
            email: self.email.clone(),
            is_kyc_verified: self.is_kyc_verified,
            created_at: self.created_at,
            bump: self.bump,
        }
    }
}

impl UserProfile {
    /// Name and e-mail address are within their limits.
    pub open spec fn wf(self) -> bool {
        &&& self.name@.len() <= MAX_NAME_LEN
        &&& self.email@.len() <= MAX_EMAIL_LEN
    }
}

/// A user's custodial holding record.
#[derive(Clone, Copy, Debug, PartialEq, Eq)]
pub struct Vault {
    pub owner: Pubkey,
    pub created_at: i64,
    pub bump: u8,
}

/// The entry of one token type in the registry.
#[derive(Debug, PartialEq, Eq)]
pub struct TokenWhitelist {
    pub mint: Pubkey,
    pub symbol: String,
    pub name: String,
    pub is_stable: bool,
    pub is_active: bool,
    pub created_at: i64,
    pub bump: u8,
}

impl Clone for TokenWhitelist {
    fn clone(&self) -> (copy: Self)
        ensures
            copy == *self,
    {
        TokenWhitelist {
            mint: self.mint,
            symbol: self.symbol.clone(),
            name: self.name.clone(),
            is_stable: self.is_stable,
            is_active: self.is_active,
            created_at: self.created_at,
            bump: self.bump,
        }
    }
}

impl TokenWhitelist {
    /// Symbol and name are within their limits.
    pub open spec fn wf(self) -> bool {
        &&& self.symbol@.len() <= MAX_SYMBOL_LEN
        &&& self.name@.len() <= MAX_NAME_LEN
    }
}

/// Where a deposit stands.
#[derive(Clone, Copy, Debug, PartialEq, Eq, Structural)]
pub enum DepositStatus {
    Pending,
    Completed,
    Rejected,
}

/// Where a withdrawal stands.
#[derive(Clone, Copy, Debug, PartialEq, Eq, Structural)]
pub enum WithdrawalStatus {
    Pending,
    Completed,
    Cancelled,
}

/// A deposit of fiat currency that is to be paid out in tokens.
#[derive(Debug, PartialEq, Eq)]
pub struct FiatDeposit {
    pub user: Pubkey,
    pub mint: Pubkey,
    pub amount: u64,
    pub reference_id: String,
    pub status: DepositStatus,
    pub created_at: i64,
    pub updated_at: i64,
    pub bump: u8,
}

impl Clone for FiatDeposit {
    fn clone(&self) -> (copy: Self)
        ensures
            copy == *self,
    {
        FiatDeposit {
            user: self.user,
            mint: self.mint,
            amount: self.amount,
            reference_id: self.reference_id.clone(),
            status: self.status,
            created_at: self.created_at,
            updated_at: self.updated_at,
            bump: self.bump,
        }
    }
}

impl FiatDeposit {
    /// The amount is positive and the reference is within its limit.
    pub open spec fn wf(self) -> bool {
        &&& self.amount > 0
        &&& self.reference_id@.len() <= MAX_REFERENCE_ID_LEN
    }
}

/// A withdrawal of tokens that is to be paid out in fiat currency.
#[derive(Debug, PartialEq, Eq)]
pub struct FiatWithdrawal {
    pub user: Pubkey,
    pub mint: Pubkey,
    pub amount: u64,
    pub reference_id: String,
    pub status: WithdrawalStatus,
    pub created_at: i64,
    pub updated_at: i64,
    pub bump: u8,
}

impl Clone for FiatWithdrawal {
    fn clone(&self) -> (copy: Self)
        ensures
            copy == *self,
    {
        FiatWithdrawal {
            user: self.user,
            mint: self.mint,
            amount: self.amount,
            reference_id: self.reference_id.clone(),
            status: self.status,
            created_at: self.created_at,
            updated_at: self.updated_at,
            bump: self.bump,
        }
    }
}

impl FiatWithdrawal {
    /// The amount is positive and the reference is within its limit.
    pub open spec fn wf(self) -> bool {
        &&& self.amount > 0
        &&& self.reference_id@.len() <= MAX_REFERENCE_ID_LEN
    }
}

/// A balance of one token type, held by a vault, by the administrator or by
/// the treasury.
#[derive(Clone, Copy, Debug, PartialEq, Eq)]
pub struct TokenAccount {
    /// The token type.
    pub mint: Pubkey,
    /// Who holds the balance.
    pub owner: Pubkey,
    /// In the smallest unit of the token.
    pub amount: u64,
}

/// A record together with the address it is kept at.
#[derive(Clone, Copy, Debug, PartialEq, Eq)]
pub struct Account<T> {
    pub key: Pubkey,
    pub data: T,
}

} // verus!
