use vstd::prelude::*;

pub use crate::state::MAX_FEE_BASIS_POINTS;

verus! {

/// The fee on `amount` at a rate of `basis_points`, rounded down.
pub open spec fn fee_of(amount: int, basis_points: int) -> int {
    amount * basis_points / 10000
}

/// The fee is never negative and never more than the amount.
pub proof fn lemma_fee_within_amount(amount: int, basis_points: int)
    requires
        0 <= amount,
        0 <= basis_points <= 10000,
    ensures
        0 <= fee_of(amount, basis_points) <= amount,
{
    assert(0 <= amount * basis_points <= amount * 10000) by (nonlinear_arith)
        requires
            0 <= amount,
            0 <= basis_points <= 10000,
    ;
}

/// A deposit of `amount` at a valid fee rate splits into a fee, rounded down,
/// and a rest for the user that add up to the amount exactly; neither is
/// negative.
pub proof fn lemma_fee_split_is_exact(amount: int, basis_points: int)
    requires
        0 <= amount,
        0 <= basis_points <= 10000,
    ensures
        ({
            let fee = fee_of(amount, basis_points);
            let user_amount = amount - fee;
            &&& fee == amount * basis_points / 10000
            &&& 0 <= fee <= amount
            &&& 0 <= user_amount <= amount
            &&& fee + user_amount == amount
        }),
{
    lemma_fee_within_amount(amount, basis_points);
}

/// Without a fee rate the user receives the whole amount; at 100% the
/// administrator does.
pub proof fn lemma_fee_at_the_ends(amount: int)
    requires
        0 <= amount,
    ensures
        fee_of(amount, 0) == 0,
        fee_of(amount, 10000) == amount,
{
    assert(amount * 0 == 0) by (nonlinear_arith);
    assert(amount * 10000 / 10000 == amount) by (nonlinear_arith);
}

/// A deposit, split into what the administrator and what the user receive.
#[derive(Clone, Copy, Debug, PartialEq, Eq)]
pub struct FeeSplit {
    pub fee: u64,
    pub user_amount: u64,
}

/// The fee on a deposit of `amount` at a rate of `basis_points`.
pub fn deposit_fee(amount: u64, basis_points: u16) -> (fee: u64)
    requires
        basis_points <= MAX_FEE_BASIS_POINTS,
    ensures
        fee == fee_of(amount as int, basis_points as int),
        fee <= amount,
{
    proof {
        lemma_fee_within_amount(amount as int, basis_points as int);
        assert(amount * basis_points <= u64::MAX * 10000) by (nonlinear_arith)
            requires
                0 <= amount <= u64::MAX,
                0 <= basis_points <= 10000,
        ;
    }
    let wide: u128 = (amount as u128) * (basis_points as u128);
    (wide / 10000) as u64
}

/// Splits a deposit of `amount` into the fee and the rest.
pub fn split_deposit(amount: u64, basis_points: u16) -> (split: FeeSplit)
    requires
        basis_points <= MAX_FEE_BASIS_POINTS,
    ensures
        split.fee == fee_of(amount as int, basis_points as int),
        split.user_amount == amount - split.fee,
        split.fee + split.user_amount == amount,
{
    let fee = deposit_fee(amount, basis_points);
    FeeSplit { fee, user_amount: amount - fee }
}

} // verus!
