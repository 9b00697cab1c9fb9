use crate::errors::StateFiError;
use crate::pubkey::Pubkey;
use crate::state::{
    text_len, Account, FiatWithdrawal, ProtocolConfig, TokenAccount, TokenWhitelist,
    UserProfile, Vault, WithdrawalStatus, MAX_REFERENCE_ID_LEN,
};
use crate::token::{credited, debited};
use vstd::prelude::*;

verus! {

/// What the opening of a withdrawal works on.
#[derive(Clone, Debug, PartialEq, Eq)]
pub struct InitiateFiatWithdrawal {
    /// The caller.
    pub user: Pubkey,
    pub user_profile: UserProfile,
    /// The vault of the profile's owner.
    pub vault: Account<Vault>,
    /// The entry of the token type in the registry, if it has one.
    pub token_whitelist: Option<TokenWhitelist>,
    /// The token type to withdraw.
    pub mint: Pubkey,
    /// Where the tokens come from.
    pub vault_token_account: TokenAccount,
    /// Where the tokens are kept until the withdrawal is settled.
    pub treasury_token_account: TokenAccount,
    /// The place of the withdrawal with this user, token type and reference:
    /// empty until it is opened.
    pub fiat_withdrawal: Option<FiatWithdrawal>,
    /// The salt with which the place of the record was derived.
    pub bump: u8,
}

/// Whether `entry` is the entry of the token type `mint`, and switched on.
pub open spec fn is_active_entry(entry: Option<TokenWhitelist>, mint: Pubkey) -> bool {
    match entry {
        Some(listed) => listed.mint == mint && listed.is_active,
        None => false,
    }
}

/// The first rule that the opening of a withdrawal would break.
pub open spec fn initiate_fiat_withdrawal_check(
    ctx: InitiateFiatWithdrawal,
    amount: u64,
    reference_id: String,
) -> Option<StateFiError> {
    if amount == 0 {
        Some(StateFiError::InvalidAmount)
    } else if reference_id@.len() > MAX_REFERENCE_ID_LEN {
        Some(StateFiError::StringTooLong)
    } else if ctx.user_profile.owner != ctx.user {
        Some(StateFiError::InvalidOwner)
    } else if ctx.vault.data.owner != ctx.user_profile.owner {
        Some(StateFiError::InvalidVaultOwner)
    } else if !is_active_entry(ctx.token_whitelist, ctx.mint) {
        Some(StateFiError::TokenNotActive)
    } else if ctx.vault_token_account.amount < amount {
        Some(StateFiError::InsufficientFunds)
    } else if ctx.vault_token_account.owner != ctx.vault.key {
        Some(StateFiError::InvalidTokenAccountOwner)
    } else if ctx.vault_token_account.mint != ctx.mint {
        Some(StateFiError::InvalidMint)
    } else if ctx.treasury_token_account.mint != ctx.mint {
        Some(StateFiError::InvalidMint)
    } else if ctx.fiat_withdrawal is Some {
        Some(StateFiError::AccountAlreadyInUse)
    } else if ctx.treasury_token_account.amount + amount > u64::MAX {
        Some(StateFiError::BalanceOverflow)
    } else {
        None
    }
}

/// The withdrawal that is opened in `ctx` at the time `now`.
pub open spec fn initiate_fiat_withdrawal_record(
    ctx: InitiateFiatWithdrawal,
    amount: u64,
    reference_id: String,
    now: i64,
) -> FiatWithdrawal {
    FiatWithdrawal {
        user: ctx.user_profile.owner,
        mint: ctx.mint,
        amount,
        reference_id,
        status: WithdrawalStatus::Pending,
        created_at: now,
        updated_at: now,
        bump: ctx.bump,
    }
}

/// `ctx` after a withdrawal was opened in it at the time `now`: the amount
/// has moved from the vault to the treasury, and the record waits for the
/// administrator.
pub open spec fn initiate_fiat_withdrawal_effect(
    ctx: InitiateFiatWithdrawal,
    amount: u64,
    reference_id: String,
    now: i64,
) -> InitiateFiatWithdrawal {
    InitiateFiatWithdrawal {
        vault_token_account: debited(ctx.vault_token_account, amount as int),
        treasury_token_account: credited(ctx.treasury_token_account, amount as int),
        fiat_withdrawal: Some(initiate_fiat_withdrawal_record(ctx, amount, reference_id, now)),
        ..ctx
    }
}

/// Opens a withdrawal: moves the amount from the user's vault into the
/// treasury, where it waits for the fiat payout.
pub fn initiate_fiat_withdrawal(
    ctx: &mut InitiateFiatWithdrawal,
    amount: u64,
    reference_id: String,
    now: i64,
) -> (result: Result<(), StateFiError>)
    ensures
        match initiate_fiat_withdrawal_check(*old(ctx), amount, reference_id) {
            Some(e) => result == Err::<(), StateFiError>(e) && *final(ctx) == *old(ctx),
            None => result == Ok::<(), StateFiError>(()) && *final(ctx)
                == initiate_fiat_withdrawal_effect(*old(ctx), amount, reference_id, now)
                && final(ctx).fiat_withdrawal.unwrap().wf(),
        },
{
    if amount == 0 {
        return Err(StateFiError::InvalidAmount);
    }
    if text_len(&reference_id) > MAX_REFERENCE_ID_LEN {
        return Err(StateFiError::StringTooLong);
    }
    if ctx.user_profile.owner != ctx.user {
        return Err(StateFiError::InvalidOwner);
    }
    if ctx.vault.data.owner != ctx.user_profile.owner {
        return Err(StateFiError::InvalidVaultOwner);
    }
    let listed = match &ctx.token_whitelist {
        Some(entry) => entry.mint == ctx.mint && entry.is_active,
        None => false,
    };
    if !listed {
        return Err(StateFiError::TokenNotActive);
    }
    if ctx.vault_token_account.amount < amount {
        return Err(StateFiError::InsufficientFunds);
    }
    if ctx.vault_token_account.owner != ctx.vault.key {
        return Err(StateFiError::InvalidTokenAccountOwner);
    }
    if ctx.vault_token_account.mint != ctx.mint {
        return Err(StateFiError::InvalidMint);
    }
    if ctx.treasury_token_account.mint != ctx.mint {
        return Err(StateFiError::InvalidMint);
    }
    if ctx.fiat_withdrawal.is_some() {
        return Err(StateFiError::AccountAlreadyInUse);
    }
    if ctx.treasury_token_account.amount > u64::MAX - amount {
        return Err(StateFiError::BalanceOverflow);
    }
    ctx.vault_token_account.amount = ctx.vault_token_account.amount - amount;
    ctx.treasury_token_account.amount = ctx.treasury_token_account.amount + amount;
    ctx.fiat_withdrawal = Some(
        FiatWithdrawal {
            user: ctx.user_profile.owner,
            mint: ctx.mint,
            amount,
            reference_id,
            status: WithdrawalStatus::Pending,
            created_at: now,
            updated_at: now,
            bump: ctx.bump,
        },
    );
    Ok(())
}

/// What the completion of a withdrawal works on.
#[derive(Clone, Debug, PartialEq, Eq)]
pub struct CompleteFiatWithdrawal {
    /// The caller.
    pub admin: Pubkey,
    pub protocol_config: ProtocolConfig,
    pub fiat_withdrawal: FiatWithdrawal,
}

/// The first rule that a completion of the withdrawal in `ctx` would break.
pub open spec fn complete_fiat_withdrawal_check(ctx: CompleteFiatWithdrawal) -> Option<
    StateFiError,
> {
    if ctx.protocol_config.admin != ctx.admin {
        Some(StateFiError::Unauthorized)
    } else if ctx.fiat_withdrawal.status != WithdrawalStatus::Pending {
        Some(StateFiError::InvalidWithdrawalStatus)
    } else {
        None
    }
}

/// `ctx` after the withdrawal in it was completed at the time `now`.
pub open spec fn complete_fiat_withdrawal_effect(
    ctx: CompleteFiatWithdrawal,
    now: i64,
) -> CompleteFiatWithdrawal {
    CompleteFiatWithdrawal {
        fiat_withdrawal: FiatWithdrawal {
            status: WithdrawalStatus::Completed,
            updated_at: now,
            ..ctx.fiat_withdrawal
        },
        ..ctx
    }
}

/// Marks a pending withdrawal as completed, once the fiat payout is made.
/// The escrowed tokens stay in the treasury. Only the administrator may do
/// so.
pub fn complete_fiat_withdrawal(ctx: &mut CompleteFiatWithdrawal, now: i64) -> (result: Result<
    (),
    StateFiError,
>)
    ensures
        match complete_fiat_withdrawal_check(*old(ctx)) {
            Some(e) => result == Err::<(), StateFiError>(e) && *final(ctx) == *old(ctx),
            None => result == Ok::<(), StateFiError>(()) && *final(ctx)
                == complete_fiat_withdrawal_effect(*old(ctx), now),
        },
{
    if ctx.protocol_config.admin != ctx.admin {
        return Err(StateFiError::Unauthorized);
    }
    if ctx.fiat_withdrawal.status != WithdrawalStatus::Pending {
        return Err(StateFiError::InvalidWithdrawalStatus);
    }
    ctx.fiat_withdrawal.status = WithdrawalStatus::Completed;
    ctx.fiat_withdrawal.updated_at = now;
    Ok(())
}

/// What the cancellation of a withdrawal works on.
#[derive(Clone, Debug, PartialEq, Eq)]
pub struct CancelFiatWithdrawal {
    /// The caller.
    pub admin: Pubkey,
    pub protocol_config: ProtocolConfig,
    pub fiat_withdrawal: FiatWithdrawal,
    /// The vault of the withdrawal's user.
    pub vault: Account<Vault>,
    /// Where the tokens go back to.
    pub vault_token_account: TokenAccount,
    /// Where the tokens were kept.
    pub treasury_token_account: TokenAccount,
}

/// The first rule that a cancellation of the withdrawal in `ctx` would break.
pub open spec fn cancel_fiat_withdrawal_check(ctx: CancelFiatWithdrawal) -> Option<StateFiError> {
    if ctx.protocol_config.admin != ctx.admin {
        Some(StateFiError::Unauthorized)
    } else if ctx.fiat_withdrawal.status != WithdrawalStatus::Pending {
        Some(StateFiError::InvalidWithdrawalStatus)
    } else if ctx.vault.data.owner != ctx.fiat_withdrawal.user {
        Some(StateFiError::InvalidVaultOwner)
    } else if ctx.vault_token_account.owner != ctx.vault.key {
        Some(StateFiError::InvalidTokenAccountOwner)
    } else if ctx.vault_token_account.mint != ctx.fiat_withdrawal.mint {
        Some(StateFiError::InvalidMint)
    } else if ctx.treasury_token_account.mint != ctx.fiat_withdrawal.mint {
        Some(StateFiError::InvalidMint)
    } else if ctx.treasury_token_account.amount < ctx.fiat_withdrawal.amount {
        Some(StateFiError::InsufficientFunds)
    } else if ctx.vault_token_account.amount + ctx.fiat_withdrawal.amount > u64::MAX {
        Some(StateFiError::BalanceOverflow)
    } else {
        None
    }
}

/// `ctx` after the withdrawal in it was cancelled at the time `now`: the
/// escrowed amount is back in the vault.
pub open spec fn cancel_fiat_withdrawal_effect(
    ctx: CancelFiatWithdrawal,
    now: i64,
) -> CancelFiatWithdrawal {
    CancelFiatWithdrawal {
        fiat_withdrawal: FiatWithdrawal {
            status: WithdrawalStatus::Cancelled,
            updated_at: now,
            ..ctx.fiat_withdrawal
        },
        vault_token_account: credited(ctx.vault_token_account, ctx.fiat_withdrawal.amount as int),
        treasury_token_account: debited(
            ctx.treasury_token_account,
            ctx.fiat_withdrawal.amount as int,
        ),
        ..ctx
    }
}

/// Cancels a pending withdrawal: the escrowed amount goes back from the
/// treasury to the user's vault. Only the administrator may do so.
pub fn cancel_fiat_withdrawal(ctx: &mut CancelFiatWithdrawal, now: i64) -> (result: Result<
    (),
    StateFiError,
>)
    ensures
        match cancel_fiat_withdrawal_check(*old(ctx)) {
            Some(e) => result == Err::<(), StateFiError>(e) && *final(ctx) == *old(ctx),
            None => result == Ok::<(), StateFiError>(()) && *final(ctx)
                == cancel_fiat_withdrawal_effect(*old(ctx), now),
        },
{
    if ctx.protocol_config.admin != ctx.admin {
        return Err(StateFiError::Unauthorized);
    }
    if ctx.fiat_withdrawal.status != WithdrawalStatus::Pending {
        return Err(StateFiError::InvalidWithdrawalStatus);
    }
    if ctx.vault.data.owner != ctx.fiat_withdrawal.user {
        return Err(StateFiError::InvalidVaultOwner);
    }
    if ctx.vault_token_account.owner != ctx.vault.key {
        return Err(StateFiError::InvalidTokenAccountOwner);
    }
    if ctx.vault_token_account.mint != ctx.fiat_withdrawal.mint {
        return Err(StateFiError::InvalidMint);
    }
    if ctx.treasury_token_account.mint != ctx.fiat_withdrawal.mint {
        return Err(StateFiError::InvalidMint);
    }
    let amount = ctx.fiat_withdrawal.amount;
    if ctx.treasury_token_account.amount < amount {
        return Err(StateFiError::InsufficientFunds);
    }
    if ctx.vault_token_account.amount > u64::MAX - amount {
        return Err(StateFiError::BalanceOverflow);
    }
    ctx.treasury_token_account.amount = ctx.treasury_token_account.amount - amount;
    ctx.vault_token_account.amount = ctx.vault_token_account.amount + amount;
    ctx.fiat_withdrawal.status = WithdrawalStatus::Cancelled;
    ctx.fiat_withdrawal.updated_at = now;
    Ok(())
}

/// Opening a withdrawal and then cancelling it gives back what was escrowed.
/// A cancellation by the administrator on the records that the opening left
/// succeeds, and vault and treasury then hold what they held before the
/// opening.
pub proof fn lemma_cancel_restores_balances(
    opening: InitiateFiatWithdrawal,
    amount: u64,
    reference_id: String,
    now: i64,
    cancelling: CancelFiatWithdrawal,
    later: i64,
)
    requires
        initiate_fiat_withdrawal_check(opening, amount, reference_id) is None,
        ({
            let opened = initiate_fiat_withdrawal_effect(opening, amount, reference_id, now);
            &&& cancelling.fiat_withdrawal == opened.fiat_withdrawal.unwrap()
            &&& cancelling.vault == opened.vault
            &&& cancelling.vault_token_account == opened.vault_token_account
            &&& cancelling.treasury_token_account == opened.treasury_token_account
        }),
        cancelling.protocol_config.admin == cancelling.admin,
    ensures
        cancel_fiat_withdrawal_check(cancelling) is None,
        cancel_fiat_withdrawal_effect(cancelling, later).vault_token_account
            == opening.vault_token_account,
        cancel_fiat_withdrawal_effect(cancelling, later).treasury_token_account
            == opening.treasury_token_account,
        cancel_fiat_withdrawal_effect(cancelling, later).fiat_withdrawal.amount == amount,
{
}

/// A withdrawal leaves the pending state at most once. After a completion
/// that succeeded, the administrator's further completion or cancellation of
/// the record is refused for its status, whatever else is given.
pub proof fn lemma_completed_withdrawal_is_final(
    ctx: CompleteFiatWithdrawal,
    now: i64,
    completing: CompleteFiatWithdrawal,
    cancelling: CancelFiatWithdrawal,
)
    requires
        complete_fiat_withdrawal_check(ctx) is None,
        completing.fiat_withdrawal == complete_fiat_withdrawal_effect(ctx, now).fiat_withdrawal,
        completing.protocol_config.admin == completing.admin,
        cancelling.fiat_withdrawal == complete_fiat_withdrawal_effect(ctx, now).fiat_withdrawal,
        cancelling.protocol_config.admin == cancelling.admin,
    ensures
        complete_fiat_withdrawal_effect(ctx, now).fiat_withdrawal.status
            == WithdrawalStatus::Completed,
        complete_fiat_withdrawal_check(completing) == Some(StateFiError::InvalidWithdrawalStatus),
        cancel_fiat_withdrawal_check(cancelling) == Some(StateFiError::InvalidWithdrawalStatus),
{
}

/// After a cancellation that succeeded, the administrator's further
/// completion or cancellation of the record is refused for its status,
/// whatever else is given.
pub proof fn lemma_cancelled_withdrawal_is_final(
    ctx: CancelFiatWithdrawal,
    now: i64,
    completing: CompleteFiatWithdrawal,
    cancelling: CancelFiatWithdrawal,
)
    requires
        cancel_fiat_withdrawal_check(ctx) is None,
        completing.fiat_withdrawal == cancel_fiat_withdrawal_effect(ctx, now).fiat_withdrawal,
        completing.protocol_config.admin == completing.admin,
        cancelling.fiat_withdrawal == cancel_fiat_withdrawal_effect(ctx, now).fiat_withdrawal,
        cancelling.protocol_config.admin == cancelling.admin,
    ensures
        cancel_fiat_withdrawal_effect(ctx, now).fiat_withdrawal.status
            == WithdrawalStatus::Cancelled,
        complete_fiat_withdrawal_check(completing) == Some(StateFiError::InvalidWithdrawalStatus),
        cancel_fiat_withdrawal_check(cancelling) == Some(StateFiError::InvalidWithdrawalStatus),
{
}

/// Whatever else it is given, a completion or a cancellation by a caller who
/// is not the administrator is refused as unauthorized.
pub proof fn lemma_only_admin_settles_withdrawals(
    completing: CompleteFiatWithdrawal,
    cancelling: CancelFiatWithdrawal,
)
    requires
        completing.admin != completing.protocol_config.admin,
        cancelling.admin != cancelling.protocol_config.admin,
    ensures
        complete_fiat_withdrawal_check(completing) == Some(StateFiError::Unauthorized),
        cancel_fiat_withdrawal_check(cancelling) == Some(StateFiError::Unauthorized),
{
}

/// A withdrawal of more than the vault holds is refused for want of funds,
/// if amount, reference, user, vault and token type are in order.
pub proof fn lemma_withdrawal_needs_funds(
    ctx: InitiateFiatWithdrawal,
    amount: u64,
    reference_id: String,
)
    requires
        amount > ctx.vault_token_account.amount,
        reference_id@.len() <= MAX_REFERENCE_ID_LEN,
        ctx.user_profile.owner == ctx.user,
        ctx.vault.data.owner == ctx.user_profile.owner,
        is_active_entry(ctx.token_whitelist, ctx.mint),
    ensures
        initiate_fiat_withdrawal_check(ctx, amount, reference_id) == Some(
            StateFiError::InsufficientFunds,
        ),
{
}

} // verus!
