use crate::errors::StateFiError;
use crate::state::TokenAccount;
use vstd::prelude::*;

verus! {

/// `account` with `amount` taken out.
pub open spec fn debited(account: TokenAccount, amount: int) -> TokenAccount {
    TokenAccount { amount: (account.amount - amount) as u64, ..account }
}

/// `account` with `amount` put in.
pub open spec fn credited(account: TokenAccount, amount: int) -> TokenAccount {
    TokenAccount { amount: (account.amount + amount) as u64, ..account }
}

/// Why `amount` cannot move from `from` to `to`, if it cannot.
pub open spec fn transfer_check(from: TokenAccount, to: TokenAccount, amount: u64) -> Option<
    StateFiError,
> {
    if from.amount < amount {
        Some(StateFiError::InsufficientFunds)
    } else if to.amount + amount > u64::MAX {
        Some(StateFiError::BalanceOverflow)
    } else {
        None
    }
}

/// Moves `amount` from one balance to another, or changes nothing.
pub fn transfer(from: &mut TokenAccount, to: &mut TokenAccount, amount: u64) -> (result: Result<
    (),
    StateFiError,
>)
    ensures
        match transfer_check(*old(from), *old(to), amount) {
            Some(e) => result == Err::<(), StateFiError>(e) && *final(from) == *old(from)
                && *final(to) == *old(to),
            None => result == Ok::<(), StateFiError>(()) && *final(from) == debited(
                *old(from),
                amount as int,
            ) && *final(to) == credited(*old(to), amount as int),
        },
{
    if from.amount < amount {
        return Err(StateFiError::InsufficientFunds);
    }
    if to.amount > u64::MAX - amount {
        return Err(StateFiError::BalanceOverflow);
    }
    from.amount = from.amount - amount;
    to.amount = to.amount + amount;
    Ok(())
}

} // verus!
