use statefi_protocol::{
    complete_fiat_deposit, initiate_fiat_deposit, Account, CompleteFiatDeposit, DepositStatus,
    FiatDeposit, InitiateFiatDeposit, ProtocolConfig, Pubkey, StateFiError, TokenAccount,
    UserProfile, Vault,
};

const ADMIN: u8 = 1;
const USER: u8 = 2;
const MINT: u8 = 30;
const VAULT: u8 = 40;
const TREASURY_AUTHORITY: u8 = 50;

fn key(n: u8) -> Pubkey {
    Pubkey { bytes: [n; 32] }
}

fn profile_of(owner: Pubkey) -> UserProfile {
    UserProfile {
        owner,
        name: String::from("Ada"),
        email: String::from("ada@example.org"),
        is_kyc_verified: false,
        created_at: 1_700_000_000,
        bump: 254,
    }
}

fn opening() -> InitiateFiatDeposit {
    InitiateFiatDeposit { user_profile: profile_of(key(USER)), mint: key(MINT), fiat_deposit: None, bump: 250 }
}

fn pending(amount: u64) -> FiatDeposit {
    FiatDeposit {
        user: key(USER),
        mint: key(MINT),
        amount,
        reference_id: String::from("wire-0001"),
        status: DepositStatus::Pending,
        created_at: 100,
        updated_at: 100,
        bump: 250,
    }
}

fn completion(fee_rate: u16, amount: u64, treasury: u64) -> CompleteFiatDeposit {
    CompleteFiatDeposit {
        admin: key(ADMIN),
        protocol_config: ProtocolConfig {
            admin: key(ADMIN),
            admin_fee_basis_points: fee_rate,
            bump: 255,
        },
        fiat_deposit: pending(amount),
        vault: Account {
            key: key(VAULT),
            data: Vault { owner: key(USER), created_at: 50, bump: 253 },
        },
        vault_token_account: TokenAccount { mint: key(MINT), owner: key(VAULT), amount: 0 },
        treasury_token_account: TokenAccount {
            mint: key(MINT),
            owner: key(TREASURY_AUTHORITY),
            amount: treasury,
        },
        admin_token_account: TokenAccount { mint: key(MINT), owner: key(ADMIN), amount: 0 },
    }
}

fn refused(mut ctx: CompleteFiatDeposit, error: StateFiError) {
    let before = ctx.clone();
    assert_eq!(complete_fiat_deposit(&mut ctx, 200), Err(error));
    assert_eq!(ctx, before);
}

#[test]
fn deposit_is_opened_pending() {
    let mut ctx = opening();
    assert_eq!(initiate_fiat_deposit(&mut ctx, 10_000, String::from("wire-0001"), 100), Ok(()));
    assert_eq!(ctx.fiat_deposit, Some(pending(10_000)));
    assert_eq!(ctx.user_profile, profile_of(key(USER)));
    assert_eq!(ctx.mint, key(MINT));
}

#[test]
fn deposit_of_nothing_is_refused() {
    let mut ctx = opening();
    assert_eq!(
        initiate_fiat_deposit(&mut ctx, 0, String::from("wire-0001"), 100),
        Err(StateFiError::InvalidAmount)
    );
    assert_eq!(ctx, opening());
    // the amount is checked before the reference
    assert_eq!(
        initiate_fiat_deposit(&mut ctx, 0, "r".repeat(101), 100),
        Err(StateFiError::InvalidAmount)
    );
}

#[test]
fn deposit_reference_at_and_over_the_limit() {
    let mut ctx = opening();
    assert_eq!(
        initiate_fiat_deposit(&mut ctx, 1, "r".repeat(101), 100),
        Err(StateFiError::StringTooLong)
    );
    assert_eq!(ctx, opening());
    assert_eq!(initiate_fiat_deposit(&mut ctx, 1, "r".repeat(100), 100), Ok(()));
    assert_eq!(ctx.fiat_deposit.unwrap().reference_id, "r".repeat(100));
    let mut ctx = opening();
    assert_eq!(initiate_fiat_deposit(&mut ctx, u64::MAX, String::new(), -5), Ok(()));
    let record = ctx.fiat_deposit.unwrap();
    assert_eq!(record.amount, u64::MAX);
    assert_eq!(record.created_at, -5);
    assert_eq!(record.updated_at, -5);
}

#[test]
fn deposit_with_the_same_user_and_reference_is_refused() {
    let mut place = opening();
    assert_eq!(initiate_fiat_deposit(&mut place, 10_000, String::from("wire-0001"), 100), Ok(()));
    let before = place.clone();
    assert_eq!(
        initiate_fiat_deposit(&mut place, 10_000, String::from("wire-0001"), 101),
        Err(StateFiError::AccountAlreadyInUse)
    );
    assert_eq!(place, before);
    assert_eq!(
        initiate_fiat_deposit(&mut place, 77, String::from("wire-0001"), 102),
        Err(StateFiError::AccountAlreadyInUse)
    );
    assert_eq!(place, before);
}

#[test]
fn deposits_with_other_references_are_independent() {
    let mut first = opening();
    let mut second = opening();
    assert_eq!(initiate_fiat_deposit(&mut first, 10_000, String::from("wire-0001"), 100), Ok(()));
    assert_eq!(initiate_fiat_deposit(&mut second, 20_000, String::from("wire-0002"), 101), Ok(()));
    assert_eq!(first.fiat_deposit, Some(pending(10_000)));
    let other = second.fiat_deposit.unwrap();
    assert_eq!(other.user, key(USER));
    assert_eq!(other.amount, 20_000);
    assert_eq!(other.reference_id, "wire-0002");
    assert_eq!(other.status, DepositStatus::Pending);
}

#[test]
fn completion_pays_fee_and_rest() {
    let mut ctx = completion(250, 10_000, 10_000);
    assert_eq!(complete_fiat_deposit(&mut ctx, 200), Ok(()));
    assert_eq!(ctx.admin_token_account.amount, 250);
    assert_eq!(ctx.vault_token_account.amount, 9_750);
    assert_eq!(ctx.treasury_token_account.amount, 0);
    assert_eq!(ctx.fiat_deposit.status, DepositStatus::Completed);
    assert_eq!(ctx.fiat_deposit.updated_at, 200);
    assert_eq!(ctx.fiat_deposit.created_at, 100);
    assert_eq!(ctx.fiat_deposit.amount, 10_000);
    let mut expected = completion(250, 10_000, 10_000);
    expected.fiat_deposit.status = DepositStatus::Completed;
    expected.fiat_deposit.updated_at = 200;
    expected.admin_token_account.amount = 250;
    expected.vault_token_account.amount = 9_750;
    expected.treasury_token_account.amount = 0;
    assert_eq!(ctx, expected);
}

#[test]
fn completion_fails_whole_when_the_treasury_is_short() {
    let mut ctx = completion(250, 10_000, 9_999);
    let before = ctx.clone();
    assert_eq!(complete_fiat_deposit(&mut ctx, 200), Err(StateFiError::InsufficientFunds));
    assert_eq!(ctx, before);
    assert_eq!(ctx.fiat_deposit.status, DepositStatus::Pending);
    // enough for the user's share alone is not enough
    let mut ctx = completion(250, 10_000, 9_750);
    assert_eq!(complete_fiat_deposit(&mut ctx, 200), Err(StateFiError::InsufficientFunds));
    assert_eq!(ctx.vault_token_account.amount, 0);
    assert_eq!(ctx.treasury_token_account.amount, 9_750);
}

#[test]
fn completion_adds_to_what_the_accounts_hold() {
    let mut ctx = completion(33, 1_000_000, 5_000_000);
    ctx.vault_token_account.amount = 11;
    ctx.admin_token_account.amount = 22;
    assert_eq!(complete_fiat_deposit(&mut ctx, 200), Ok(()));
    // 1_000_000 * 33 / 10_000 = 3_300
    assert_eq!(ctx.admin_token_account.amount, 22 + 3_300);
    assert_eq!(ctx.vault_token_account.amount, 11 + 996_700);
    assert_eq!(ctx.treasury_token_account.amount, 4_000_000);
}

#[test]
fn completion_without_fee_pays_the_user_all() {
    let mut ctx = completion(0, 10_000, 10_000);
    assert_eq!(complete_fiat_deposit(&mut ctx, 200), Ok(()));
    assert_eq!(ctx.admin_token_account.amount, 0);
    assert_eq!(ctx.vault_token_account.amount, 10_000);
}

#[test]
fn completion_with_a_fee_that_rounds_to_zero() {
    let mut ctx = completion(1, 9_999, 10_000);
    assert_eq!(complete_fiat_deposit(&mut ctx, 200), Ok(()));
    assert_eq!(ctx.admin_token_account.amount, 0);
    assert_eq!(ctx.vault_token_account.amount, 9_999);
    assert_eq!(ctx.treasury_token_account.amount, 1);
}

#[test]
fn completion_at_full_fee_pays_the_admin_all() {
    let mut ctx = completion(10_000, u64::MAX, u64::MAX);
    assert_eq!(complete_fiat_deposit(&mut ctx, 200), Ok(()));
    assert_eq!(ctx.admin_token_account.amount, u64::MAX);
    assert_eq!(ctx.vault_token_account.amount, 0);
    assert_eq!(ctx.treasury_token_account.amount, 0);
}

#[test]
fn completion_happens_once() {
    let mut ctx = completion(250, 10_000, 30_000);
    assert_eq!(complete_fiat_deposit(&mut ctx, 200), Ok(()));
    let after = ctx.clone();
    assert_eq!(complete_fiat_deposit(&mut ctx, 201), Err(StateFiError::InvalidDepositStatus));
    assert_eq!(ctx, after);
    assert_eq!(ctx.treasury_token_account.amount, 20_000);
    assert_eq!(ctx.vault_token_account.amount, 9_750);
    assert_eq!(ctx.admin_token_account.amount, 250);
}

#[test]
fn completion_of_a_rejected_deposit_is_refused() {
    let mut ctx = completion(250, 10_000, 30_000);
    ctx.fiat_deposit.status = DepositStatus::Rejected;
    refused(ctx, StateFiError::InvalidDepositStatus);
}

#[test]
fn completion_needs_the_admin() {
    let mut ctx = completion(250, 10_000, 30_000);
    ctx.admin = key(USER);
    refused(ctx.clone(), StateFiError::Unauthorized);
    // whatever else is wrong
    ctx.fiat_deposit.status = DepositStatus::Completed;
    ctx.vault.data.owner = key(77);
    ctx.treasury_token_account.amount = 0;
    refused(ctx, StateFiError::Unauthorized);
}

#[test]
fn completion_needs_the_vault_of_the_user() {
    let mut ctx = completion(250, 10_000, 30_000);
    ctx.vault.data.owner = key(77);
    refused(ctx, StateFiError::InvalidVaultOwner);
}

#[test]
fn completion_needs_a_token_account_of_the_vault() {
    let mut ctx = completion(250, 10_000, 30_000);
    ctx.vault_token_account.owner = key(USER);
    refused(ctx, StateFiError::InvalidTokenAccountOwner);
}

#[test]
fn completion_needs_the_fee_account_of_the_admin() {
    let mut ctx = completion(250, 10_000, 30_000);
    ctx.admin_token_account.owner = key(USER);
    refused(ctx, StateFiError::InvalidTokenAccountOwner);
}

#[test]
fn completion_needs_accounts_of_the_token_type() {
    let mut ctx = completion(250, 10_000, 30_000);
    ctx.vault_token_account.mint = key(31);
    refused(ctx, StateFiError::InvalidMint);
    let mut ctx = completion(250, 10_000, 30_000);
    ctx.treasury_token_account.mint = key(31);
    refused(ctx, StateFiError::InvalidMint);
    let mut ctx = completion(250, 10_000, 30_000);
    ctx.admin_token_account.mint = key(31);
    refused(ctx, StateFiError::InvalidMint);
}

#[test]
fn completion_reports_the_first_broken_rule() {
    let mut ctx = completion(250, 10_000, 0);
    ctx.admin_token_account.owner = key(USER);
    ctx.admin_token_account.mint = key(31);
    refused(ctx.clone(), StateFiError::InvalidMint);
    ctx.vault_token_account.owner = key(USER);
    refused(ctx.clone(), StateFiError::InvalidTokenAccountOwner);
    ctx.vault.data.owner = key(77);
    refused(ctx.clone(), StateFiError::InvalidVaultOwner);
    ctx.fiat_deposit.status = DepositStatus::Completed;
    refused(ctx, StateFiError::InvalidDepositStatus);
}

#[test]
fn completion_refuses_to_overflow_a_balance() {
    let mut ctx = completion(250, 10_000, 30_000);
    ctx.vault_token_account.amount = u64::MAX - 9_749;
    refused(ctx.clone(), StateFiError::BalanceOverflow);
    ctx.vault_token_account.amount = u64::MAX - 9_750;
    ctx.admin_token_account.amount = u64::MAX - 249;
    refused(ctx.clone(), StateFiError::BalanceOverflow);
    ctx.admin_token_account.amount = u64::MAX - 250;
    assert_eq!(complete_fiat_deposit(&mut ctx, 200), Ok(()));
    assert_eq!(ctx.vault_token_account.amount, u64::MAX);
    assert_eq!(ctx.admin_token_account.amount, u64::MAX);
}
