//! What holds of a ledger over more than one operation.

use crate::deposit::{
    complete_fiat_deposit_check, complete_fiat_deposit_effect, initiate_fiat_deposit_check,
    initiate_fiat_deposit_record,
};
use crate::errors::StateFiError;
use crate::ledger::{deposit_moved_on, withdrawal_moved_on, LedgerView};
use crate::pubkey::Pubkey;
use crate::state::{DepositStatus, TokenAccount, WithdrawalStatus};
use crate::withdrawal::{
    cancel_fiat_withdrawal_check, cancel_fiat_withdrawal_effect, complete_fiat_withdrawal_check,
    complete_fiat_withdrawal_effect, initiate_fiat_withdrawal_check,
    initiate_fiat_withdrawal_effect,
};
use vstd::prelude::*;

verus! {

/// A user's reference names one deposit. Once a deposit of `user` with a
/// reference is opened, every further opening by that user with the same
/// reference is refused, and for the place being taken if the amount is
/// positive.
pub proof fn lemma_deposit_reference_is_used_once(
    ledger: LedgerView,
    user: Pubkey,
    mint: Pubkey,
    bump: u8,
    amount: u64,
    reference_id: String,
    now: i64,
    next_mint: Pubkey,
    next_bump: u8,
    next_amount: u64,
    next_reference_id: String,
)
    requires
        ledger.wf(),
        ledger.deposit_opening(user, mint, bump, reference_id@) is Some,
        initiate_fiat_deposit_check(
            ledger.deposit_opening(user, mint, bump, reference_id@).unwrap(),
            amount,
            reference_id,
        ) is None,
        next_reference_id@ == reference_id@,
    ensures
        ({
            let first = ledger.deposit_opening(user, mint, bump, reference_id@).unwrap();
            let opened = ledger.with_deposit(
                initiate_fiat_deposit_record(first, amount, reference_id, now),
            );
            let second = opened.deposit_opening(user, next_mint, next_bump, next_reference_id@);
            &&& second is Some
            &&& initiate_fiat_deposit_check(second.unwrap(), next_amount, next_reference_id) is Some
            &&& next_amount > 0 ==> initiate_fiat_deposit_check(
                second.unwrap(),
                next_amount,
                next_reference_id,
            ) == Some(StateFiError::AccountAlreadyInUse)
        }),
{
}

/// Deposits with different users or references do not touch each other.
/// After a deposit is opened, an opening for another user or with another
/// reference works on what it would have worked on before, so it succeeds or
/// fails as it would have and creates the same record; and the first deposit
/// stays as it is.
pub proof fn lemma_deposits_are_independent(
    ledger: LedgerView,
    user: Pubkey,
    mint: Pubkey,
    bump: u8,
    amount: u64,
    reference_id: String,
    now: i64,
    other_user: Pubkey,
    other_mint: Pubkey,
    other_bump: u8,
    other_amount: u64,
    other_reference_id: String,
    later: i64,
)
    requires
        ledger.wf(),
        ledger.deposit_opening(user, mint, bump, reference_id@) is Some,
        initiate_fiat_deposit_check(
            ledger.deposit_opening(user, mint, bump, reference_id@).unwrap(),
            amount,
            reference_id,
        ) is None,
        other_user != user || other_reference_id@ != reference_id@,
    ensures
        ({
            let first = ledger.deposit_opening(user, mint, bump, reference_id@).unwrap();
            let record = initiate_fiat_deposit_record(first, amount, reference_id, now);
            let opened = ledger.with_deposit(record);
            let second = opened.deposit_opening(
                other_user,
                other_mint,
                other_bump,
                other_reference_id@,
            );
            &&& second == ledger.deposit_opening(
                other_user,
                other_mint,
                other_bump,
                other_reference_id@,
            )
            &&& second is Some ==> opened.with_deposit(
                initiate_fiat_deposit_record(
                    second.unwrap(),
                    other_amount,
                    other_reference_id,
                    later,
                ),
            ).deposits[(user, reference_id@)] == record
        }),
{
    let first = ledger.deposit_opening(user, mint, bump, reference_id@).unwrap();
    let record = initiate_fiat_deposit_record(first, amount, reference_id, now);
    let opened = ledger.with_deposit(record);
    assert(opened.deposits.get((other_user, other_reference_id@)) == ledger.deposits.get(
        (other_user, other_reference_id@),
    ));
}

/// A deposit leaves the pending state at most once. After a completion that
/// succeeded, every further completion of that deposit by the administrator
/// is refused for the deposit's status, whatever token accounts it names; so
/// it changes no record and no balance.
pub proof fn lemma_deposit_is_completed_once(
    ledger: LedgerView,
    admin: Pubkey,
    user: Pubkey,
    reference_id: Seq<char>,
    vault_token_account: TokenAccount,
    treasury_token_account: TokenAccount,
    admin_token_account: TokenAccount,
    now: i64,
    next_vault_token_account: TokenAccount,
    next_treasury_token_account: TokenAccount,
    next_admin_token_account: TokenAccount,
)
    requires
        ledger.wf(),
        ledger.deposit_completion(
            admin,
            user,
            reference_id,
            vault_token_account,
            treasury_token_account,
            admin_token_account,
        ) is Some,
        complete_fiat_deposit_check(
            ledger.deposit_completion(
                admin,
                user,
                reference_id,
                vault_token_account,
                treasury_token_account,
                admin_token_account,
            ).unwrap(),
        ) is None,
    ensures
        ({
            let first = ledger.deposit_completion(
                admin,
                user,
                reference_id,
                vault_token_account,
                treasury_token_account,
                admin_token_account,
            ).unwrap();
            let completed = ledger.with_deposit(
                complete_fiat_deposit_effect(first, now).fiat_deposit,
            );
            let second = completed.deposit_completion(
                admin,
                user,
                reference_id,
                next_vault_token_account,
                next_treasury_token_account,
                next_admin_token_account,
            );
            &&& completed.deposits[(user, reference_id)].status == DepositStatus::Completed
            &&& second is Some
            &&& complete_fiat_deposit_check(second.unwrap()) == Some(
                StateFiError::InvalidDepositStatus,
            )
        }),
{
}

/// A withdrawal leaves the pending state at most once. After a completion
/// that succeeded, every further completion or cancellation of that
/// withdrawal by the administrator is refused for the withdrawal's status,
/// whatever token accounts it names.
pub proof fn lemma_withdrawal_is_final_once_completed(
    ledger: LedgerView,
    admin: Pubkey,
    user: Pubkey,
    mint: Pubkey,
    reference_id: Seq<char>,
    now: i64,
    vault_token_account: TokenAccount,
    treasury_token_account: TokenAccount,
)
    requires
        ledger.wf(),
        ledger.withdrawal_completion(admin, user, mint, reference_id) is Some,
        complete_fiat_withdrawal_check(
            ledger.withdrawal_completion(admin, user, mint, reference_id).unwrap(),
        ) is None,
    ensures
        ({
            let first = ledger.withdrawal_completion(admin, user, mint, reference_id).unwrap();
            let completed = ledger.with_withdrawal(
                complete_fiat_withdrawal_effect(first, now).fiat_withdrawal,
            );
            let completing = completed.withdrawal_completion(admin, user, mint, reference_id);
            let cancelling = completed.withdrawal_cancellation(
                admin,
                user,
                mint,
                reference_id,
                vault_token_account,
                treasury_token_account,
            );
            &&& completed.withdrawals[(user, mint, reference_id)].status
                == WithdrawalStatus::Completed
            &&& completing is Some
            &&& complete_fiat_withdrawal_check(completing.unwrap()) == Some(
                StateFiError::InvalidWithdrawalStatus,
            )
            &&& cancelling is Some
            &&& cancel_fiat_withdrawal_check(cancelling.unwrap()) == Some(
                StateFiError::InvalidWithdrawalStatus,
            )
        }),
{
    let key = (user, mint, reference_id);
    assert(ledger.withdrawals.contains_key(key));
    assert(ledger.vaults.contains_key(key.0));
}

/// After a cancellation that succeeded, every further completion or
/// cancellation of that withdrawal by the administrator is refused for the
/// withdrawal's status, whatever token accounts it names.
pub proof fn lemma_withdrawal_is_final_once_cancelled(
    ledger: LedgerView,
    admin: Pubkey,
    user: Pubkey,
    mint: Pubkey,
    reference_id: Seq<char>,
    vault_token_account: TokenAccount,
    treasury_token_account: TokenAccount,
    now: i64,
    next_vault_token_account: TokenAccount,
    next_treasury_token_account: TokenAccount,
)
    requires
        ledger.wf(),
        ledger.withdrawal_cancellation(
            admin,
            user,
            mint,
            reference_id,
            vault_token_account,
            treasury_token_account,
        ) is Some,
        cancel_fiat_withdrawal_check(
            ledger.withdrawal_cancellation(
                admin,
                user,
                mint,
                reference_id,
                vault_token_account,
                treasury_token_account,
            ).unwrap(),
        ) is None,
    ensures
        ({
            let first = ledger.withdrawal_cancellation(
                admin,
                user,
                mint,
                reference_id,
                vault_token_account,
                treasury_token_account,
            ).unwrap();
            let cancelled = ledger.with_withdrawal(
                cancel_fiat_withdrawal_effect(first, now).fiat_withdrawal,
            );
            let completing = cancelled.withdrawal_completion(admin, user, mint, reference_id);
            let cancelling = cancelled.withdrawal_cancellation(
                admin,
                user,
                mint,
                reference_id,
                next_vault_token_account,
                next_treasury_token_account,
            );
            &&& cancelled.withdrawals[(user, mint, reference_id)].status
                == WithdrawalStatus::Cancelled
            &&& completing is Some
            &&& complete_fiat_withdrawal_check(completing.unwrap()) == Some(
                StateFiError::InvalidWithdrawalStatus,
            )
            &&& cancelling is Some
            &&& cancel_fiat_withdrawal_check(cancelling.unwrap()) == Some(
                StateFiError::InvalidWithdrawalStatus,
            )
        }),
{
}

/// Opening a withdrawal and then cancelling it gives back what was escrowed.
/// After an opening that succeeded, the administrator's cancellation of that
/// withdrawal, on the token accounts as the opening left them, succeeds, and
/// vault and treasury then hold what they held before the opening.
pub proof fn lemma_cancel_undoes_the_escrow(
    ledger: LedgerView,
    user: Pubkey,
    mint: Pubkey,
    bump: u8,
    vault_token_account: TokenAccount,
    treasury_token_account: TokenAccount,
    amount: u64,
    reference_id: String,
    now: i64,
    admin: Pubkey,
    later: i64,
)
    requires
        ledger.wf(),
        ledger.withdrawal_opening(
            user,
            mint,
            bump,
            reference_id@,
            vault_token_account,
            treasury_token_account,
        ) is Some,
        initiate_fiat_withdrawal_check(
            ledger.withdrawal_opening(
                user,
                mint,
                bump,
                reference_id@,
                vault_token_account,
                treasury_token_account,
            ).unwrap(),
            amount,
            reference_id,
        ) is None,
        ledger.config is Some,
        ledger.config.unwrap().admin == admin,
    ensures
        ({
            let opening = ledger.withdrawal_opening(
                user,
                mint,
                bump,
                reference_id@,
                vault_token_account,
                treasury_token_account,
            ).unwrap();
            let opened = initiate_fiat_withdrawal_effect(opening, amount, reference_id, now);
            let cancelling = ledger.with_withdrawal(
                opened.fiat_withdrawal.unwrap(),
            ).withdrawal_cancellation(
                admin,
                user,
                mint,
                reference_id@,
                opened.vault_token_account,
                opened.treasury_token_account,
            );
            &&& opened.vault_token_account.amount == vault_token_account.amount - amount
            &&& opened.treasury_token_account.amount == treasury_token_account.amount + amount
            &&& cancelling is Some
            &&& cancel_fiat_withdrawal_check(cancelling.unwrap()) is None
            &&& cancel_fiat_withdrawal_effect(cancelling.unwrap(), later).vault_token_account
                == vault_token_account
            &&& cancel_fiat_withdrawal_effect(cancelling.unwrap(), later).treasury_token_account
                == treasury_token_account
        }),
{
}

/// Growth of a ledger goes step by step: a ledger grows to itself, and what
/// grows in two steps has grown.
pub proof fn lemma_growth_is_a_preorder(first: LedgerView, second: LedgerView, third: LedgerView)
    requires
        first.grows_to(second),
        second.grows_to(third),
    ensures
        first.grows_to(first),
        first.grows_to(third),
{
    assert forall|k: (Pubkey, Seq<char>)| #[trigger]
        first.deposits.contains_key(k) implies third.deposits.contains_key(k) && deposit_moved_on(
        first.deposits[k],
        third.deposits[k],
    ) by {
        assert(second.deposits.contains_key(k));
    }
    assert forall|k: (Pubkey, Pubkey, Seq<char>)| #[trigger]
        first.withdrawals.contains_key(k) implies third.withdrawals.contains_key(k)
        && withdrawal_moved_on(first.withdrawals[k], third.withdrawals[k]) by {
        assert(second.withdrawals.contains_key(k));
    }
    assert forall|owner: Pubkey| #[trigger]
        first.profiles.contains_key(owner) implies third.profiles.contains_key(owner)
        && third.profiles[owner] == first.profiles[owner] by {
        assert(second.profiles.contains_key(owner));
    }
    assert forall|owner: Pubkey| #[trigger]
        first.vaults.contains_key(owner) implies third.vaults.contains_key(owner)
        && third.vaults[owner] == first.vaults[owner] by {
        assert(second.vaults.contains_key(owner));
    }
    assert forall|mint: Pubkey| #[trigger]
        first.tokens.contains_key(mint) implies third.tokens.contains_key(mint)
        && third.tokens[mint] == first.tokens[mint] by {
        assert(second.tokens.contains_key(mint));
    }
}

/// A deposit that has left the pending state never changes again. However
/// the ledger has grown since, the record is as it was, and the
/// administrator's completion of it is refused for its status.
pub proof fn lemma_settled_deposit_is_final(
    ledger: LedgerView,
    later: LedgerView,
    user: Pubkey,
    reference_id: Seq<char>,
    vault_token_account: TokenAccount,
    treasury_token_account: TokenAccount,
    admin_token_account: TokenAccount,
)
    requires
        ledger.grows_to(later),
        ledger.deposits.contains_key((user, reference_id)),
        ledger.deposits[(user, reference_id)].status != DepositStatus::Pending,
        later.config is Some,
    ensures
        later.deposits.contains_key((user, reference_id)),
        later.deposits[(user, reference_id)] == ledger.deposits[(user, reference_id)],
        ({
            let completing = later.deposit_completion(
                later.config.unwrap().admin,
                user,
                reference_id,
                vault_token_account,
                treasury_token_account,
                admin_token_account,
            );
            completing is Some ==> complete_fiat_deposit_check(completing.unwrap()) == Some(
                StateFiError::InvalidDepositStatus,
            )
        }),
{
}

/// A withdrawal that has left the pending state never changes again. However
/// the ledger has grown since, the record is as it was, and the
/// administrator's completion or cancellation of it is refused for its
/// status.
pub proof fn lemma_settled_withdrawal_is_final(
    ledger: LedgerView,
    later: LedgerView,
    user: Pubkey,
    mint: Pubkey,
    reference_id: Seq<char>,
    vault_token_account: TokenAccount,
    treasury_token_account: TokenAccount,
)
    requires
        ledger.grows_to(later),
        ledger.withdrawals.contains_key((user, mint, reference_id)),
        ledger.withdrawals[(user, mint, reference_id)].status != WithdrawalStatus::Pending,
        later.config is Some,
    ensures
        later.withdrawals.contains_key((user, mint, reference_id)),
        later.withdrawals[(user, mint, reference_id)] == ledger.withdrawals[(
            user,
            mint,
            reference_id,
        )],
        ({
            let admin = later.config.unwrap().admin;
            let completing = later.withdrawal_completion(admin, user, mint, reference_id);
            let cancelling = later.withdrawal_cancellation(
                admin,
                user,
                mint,
                reference_id,
                vault_token_account,
                treasury_token_account,
            );
            &&& completing is Some
            &&& complete_fiat_withdrawal_check(completing.unwrap()) == Some(
                StateFiError::InvalidWithdrawalStatus,
            )
            &&& cancelling is Some ==> cancel_fiat_withdrawal_check(cancelling.unwrap()) == Some(
                StateFiError::InvalidWithdrawalStatus,
            )
        }),
{
}

/// The amount of a deposit, its user, token type and reference are fixed
/// when it is opened: however the ledger grows, they stay.
pub proof fn lemma_deposit_keeps_its_terms(
    ledger: LedgerView,
    later: LedgerView,
    user: Pubkey,
    reference_id: Seq<char>,
)
    requires
        ledger.grows_to(later),
        ledger.deposits.contains_key((user, reference_id)),
    ensures
        later.deposits.contains_key((user, reference_id)),
        ({
            let before = ledger.deposits[(user, reference_id)];
            let after = later.deposits[(user, reference_id)];
            &&& after.amount == before.amount
            &&& after.user == before.user
            &&& after.mint == before.mint
            &&& after.reference_id == before.reference_id
            &&& after.created_at == before.created_at
            &&& after.status == before.status || before.status == DepositStatus::Pending
        }),
{
}

/// The amount of a withdrawal, its user, token type and reference are fixed
/// when it is opened: however the ledger grows, they stay, so that a
/// cancellation gives back exactly what was escrowed.
pub proof fn lemma_withdrawal_keeps_its_terms(
    ledger: LedgerView,
    later: LedgerView,
    user: Pubkey,
    mint: Pubkey,
    reference_id: Seq<char>,
)
    requires
        ledger.grows_to(later),
        ledger.withdrawals.contains_key((user, mint, reference_id)),
    ensures
        later.withdrawals.contains_key((user, mint, reference_id)),
        ({
            let before = ledger.withdrawals[(user, mint, reference_id)];
            let after = later.withdrawals[(user, mint, reference_id)];
            &&& after.amount == before.amount
            &&& after.user == before.user
            &&& after.mint == before.mint
            &&& after.reference_id == before.reference_id
            &&& after.created_at == before.created_at
            &&& after.status == before.status || before.status == WithdrawalStatus::Pending
        }),
{
}

} // verus!
