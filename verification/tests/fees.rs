use statefi_protocol::{deposit_fee, split_deposit, transfer, FeeSplit, Pubkey, StateFiError, TokenAccount};

fn key(n: u8) -> Pubkey {
    Pubkey { bytes: [n; 32] }
}

fn balance(amount: u64) -> TokenAccount {
    TokenAccount { mint: key(9), owner: key(8), amount }
}

#[test]
fn fee_of_two_and_a_half_percent() {
    assert_eq!(deposit_fee(10_000, 250), 250);
    assert_eq!(split_deposit(10_000, 250), FeeSplit { fee: 250, user_amount: 9_750 });
}

#[test]
fn fee_is_rounded_down() {
    assert_eq!(deposit_fee(3_333, 1), 0);
    assert_eq!(deposit_fee(9_999, 1), 0);
    assert_eq!(deposit_fee(10_000, 1), 1);
    assert_eq!(deposit_fee(19_999, 5_000), 9_999);
    assert_eq!(deposit_fee(1, 9_999), 0);
    assert_eq!(split_deposit(19_999, 5_000), FeeSplit { fee: 9_999, user_amount: 10_000 });
}

#[test]
fn fee_at_zero_rate_is_zero() {
    assert_eq!(split_deposit(123_456, 0), FeeSplit { fee: 0, user_amount: 123_456 });
    assert_eq!(split_deposit(u64::MAX, 0), FeeSplit { fee: 0, user_amount: u64::MAX });
}

#[test]
fn fee_at_full_rate_is_the_amount() {
    assert_eq!(split_deposit(123_456, 10_000), FeeSplit { fee: 123_456, user_amount: 0 });
    assert_eq!(split_deposit(u64::MAX, 10_000), FeeSplit { fee: u64::MAX, user_amount: 0 });
}

#[test]
fn fee_of_the_largest_amount_does_not_overflow() {
    // 18446744073709551615 * 9999 / 10000, rounded down
    assert_eq!(deposit_fee(u64::MAX, 9_999), 18_444_899_399_302_180_659);
    assert_eq!(deposit_fee(u64::MAX, 1), 1_844_674_407_370_955);
}

#[test]
fn fee_and_rest_add_up() {
    let amounts = [0u64, 1, 2, 9_999, 10_000, 10_001, 1_000_000_007, u64::MAX - 1, u64::MAX];
    let rates = [0u16, 1, 2, 33, 250, 4_999, 5_000, 9_999, 10_000];
    for amount in amounts {
        for rate in rates {
            let split = split_deposit(amount, rate);
            let exact = (amount as u128 * rate as u128 / 10_000) as u64;
            assert_eq!(split.fee, exact);
            assert_eq!(split.user_amount, amount - exact);
            assert_eq!(split.fee as u128 + split.user_amount as u128, amount as u128);
        }
    }
}

#[test]
fn transfer_moves_the_amount() {
    let mut from = balance(500);
    let mut to = balance(20);
    assert_eq!(transfer(&mut from, &mut to, 120), Ok(()));
    assert_eq!(from, balance(380));
    assert_eq!(to, balance(140));
}

#[test]
fn transfer_of_the_whole_balance() {
    let mut from = balance(500);
    let mut to = balance(0);
    assert_eq!(transfer(&mut from, &mut to, 500), Ok(()));
    assert_eq!(from.amount, 0);
    assert_eq!(to.amount, 500);
}

#[test]
fn transfer_of_nothing_changes_nothing() {
    let mut from = balance(0);
    let mut to = balance(u64::MAX);
    assert_eq!(transfer(&mut from, &mut to, 0), Ok(()));
    assert_eq!(from.amount, 0);
    assert_eq!(to.amount, u64::MAX);
}

#[test]
fn transfer_needs_funds() {
    let mut from = balance(499);
    let mut to = balance(20);
    assert_eq!(transfer(&mut from, &mut to, 500), Err(StateFiError::InsufficientFunds));
    assert_eq!(from, balance(499));
    assert_eq!(to, balance(20));
}

#[test]
fn transfer_refuses_to_overflow() {
    let mut from = balance(10);
    let mut to = balance(u64::MAX - 4);
    assert_eq!(transfer(&mut from, &mut to, 5), Err(StateFiError::BalanceOverflow));
    assert_eq!(from, balance(10));
    assert_eq!(to, balance(u64::MAX - 4));
    assert_eq!(transfer(&mut from, &mut to, 4), Ok(()));
    assert_eq!(from.amount, 6);
    assert_eq!(to.amount, u64::MAX);
}

#[test]
fn transfer_reports_missing_funds_before_overflow() {
    let mut from = balance(1);
    let mut to = balance(u64::MAX);
    assert_eq!(transfer(&mut from, &mut to, 2), Err(StateFiError::InsufficientFunds));
}
