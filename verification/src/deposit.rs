use crate::errors::StateFiError;
use crate::fees::{fee_of, lemma_fee_within_amount, split_deposit};
use crate::pubkey::Pubkey;
use crate::state::{
    text_len, Account, DepositStatus, FiatDeposit, ProtocolConfig, TokenAccount,
    UserProfile, Vault, MAX_REFERENCE_ID_LEN,
};
use crate::token::{credited, debited};
use vstd::prelude::*;

verus! {

/// What the opening of a deposit works on.
#[derive(Clone, Debug, PartialEq, Eq)]
pub struct InitiateFiatDeposit {
    /// The profile of the user for whom the deposit is opened.
    pub user_profile: UserProfile,
    /// The token type in which the deposit is to be paid out.
    pub mint: Pubkey,
    /// The place of the deposit with this user and reference: empty until it
    /// is opened.
    pub fiat_deposit: Option<FiatDeposit>,
    /// The salt with which the place of the record was derived.
    pub bump: u8,
}

/// The first rule that the opening of a deposit would break.
pub open spec fn initiate_fiat_deposit_check(
    ctx: InitiateFiatDeposit,
    amount: u64,
    reference_id: String,
) -> Option<StateFiError> {
    if amount == 0 {
        Some(StateFiError::InvalidAmount)
    } else if reference_id@.len() > MAX_REFERENCE_ID_LEN {
        Some(StateFiError::StringTooLong)
    } else if ctx.fiat_deposit is Some {
        Some(StateFiError::AccountAlreadyInUse)
    } else {
        None
    }
}

/// The deposit that is opened in `ctx` at the time `now`.
pub open spec fn initiate_fiat_deposit_record(
    ctx: InitiateFiatDeposit,
    amount: u64,
    reference_id: String,
    now: i64,
) -> FiatDeposit {
    FiatDeposit {
        user: ctx.user_profile.owner,
        mint: ctx.mint,
        amount,
        reference_id,
        status: DepositStatus::Pending,
        created_at: now,
        updated_at: now,
        bump: ctx.bump,
    }
}

/// Opens a deposit, which then waits for the administrator. No tokens move.
pub fn initiate_fiat_deposit(
    ctx: &mut InitiateFiatDeposit,
    amount: u64,
    reference_id: String,
    now: i64,
) -> (result: Result<(), StateFiError>)
    ensures
        match initiate_fiat_deposit_check(*old(ctx), amount, reference_id) {
            Some(e) => result == Err::<(), StateFiError>(e) && *final(ctx) == *old(ctx),
            None => result == Ok::<(), StateFiError>(()) && *final(ctx) == (InitiateFiatDeposit {
                fiat_deposit: Some(
                    initiate_fiat_deposit_record(*old(ctx), amount, reference_id, now),
                ),
                ..*old(ctx)
            }) && final(ctx).fiat_deposit.unwrap().wf(),
        },
{
    if amount == 0 {
        return Err(StateFiError::InvalidAmount);
    }
    if text_len(&reference_id) > MAX_REFERENCE_ID_LEN {
        return Err(StateFiError::StringTooLong);
    }
    if ctx.fiat_deposit.is_some() {
        return Err(StateFiError::AccountAlreadyInUse);
    }
    ctx.fiat_deposit = Some(
        FiatDeposit {
            user: ctx.user_profile.owner,
            mint: ctx.mint,
            amount,
            reference_id,
            status: DepositStatus::Pending,
            created_at: now,
            updated_at: now,
            bump: ctx.bump,
        },
    );
    Ok(())
}

/// What the completion of a deposit works on.
#[derive(Clone, Debug, PartialEq, Eq)]
pub struct CompleteFiatDeposit {
    /// The caller.
    pub admin: Pubkey,
    pub protocol_config: ProtocolConfig,
    pub fiat_deposit: FiatDeposit,
    /// The vault of the deposit's user.
    pub vault: Account<Vault>,
    /// Where the user's share goes.
    pub vault_token_account: TokenAccount,
    /// Where the tokens come from.
    pub treasury_token_account: TokenAccount,
    /// Where the fee goes.
    pub admin_token_account: TokenAccount,
}

/// The first rule that a completion of the deposit in `ctx` would break.
pub open spec fn complete_fiat_deposit_check(ctx: CompleteFiatDeposit) -> Option<StateFiError> {
    let amount = ctx.fiat_deposit.amount as int;
    let fee = fee_of(amount, ctx.protocol_config.admin_fee_basis_points as int);
    if ctx.protocol_config.admin != ctx.admin {
        Some(StateFiError::Unauthorized)
    } else if ctx.fiat_deposit.status != DepositStatus::Pending {
        Some(StateFiError::InvalidDepositStatus)
    } else if ctx.vault.data.owner != ctx.fiat_deposit.user {
        Some(StateFiError::InvalidVaultOwner)
    } else if ctx.vault_token_account.owner != ctx.vault.key {
        Some(StateFiError::InvalidTokenAccountOwner)
    } else if ctx.vault_token_account.mint != ctx.fiat_deposit.mint {
        Some(StateFiError::InvalidMint)
    } else if ctx.treasury_token_account.mint != ctx.fiat_deposit.mint {
        Some(StateFiError::InvalidMint)
    } else if ctx.admin_token_account.mint != ctx.fiat_deposit.mint {
        Some(StateFiError::InvalidMint)
    } else if ctx.admin_token_account.owner != ctx.protocol_config.admin {
        Some(StateFiError::InvalidTokenAccountOwner)
    } else if ctx.treasury_token_account.amount < amount {
        Some(StateFiError::InsufficientFunds)
    } else if ctx.vault_token_account.amount + (amount - fee) > u64::MAX
        || ctx.admin_token_account.amount + fee > u64::MAX {
        Some(StateFiError::BalanceOverflow)
    } else {
        None
    }
}

/// `ctx` after the deposit in it was completed at the time `now`: the
/// treasury has paid the amount, the administrator has the fee, the vault has
/// the rest.
pub open spec fn complete_fiat_deposit_effect(
    ctx: CompleteFiatDeposit,
    now: i64,
) -> CompleteFiatDeposit {
    let amount = ctx.fiat_deposit.amount as int;
    let fee = fee_of(amount, ctx.protocol_config.admin_fee_basis_points as int);
    CompleteFiatDeposit {
        fiat_deposit: FiatDeposit {
            status: DepositStatus::Completed,
            updated_at: now,
            ..ctx.fiat_deposit
        },
        vault_token_account: credited(ctx.vault_token_account, amount - fee),
        treasury_token_account: debited(ctx.treasury_token_account, amount),
        admin_token_account: credited(ctx.admin_token_account, fee),
        ..ctx
    }
}

/// Completes a pending deposit: pays its amount out of the treasury, the fee
/// to the administrator and the rest to the user's vault. Only the
/// administrator may do so.
pub fn complete_fiat_deposit(ctx: &mut CompleteFiatDeposit, now: i64) -> (result: Result<
    (),
    StateFiError,
>)
    requires
        old(ctx).protocol_config.wf(),
    ensures
        match complete_fiat_deposit_check(*old(ctx)) {
            Some(e) => result == Err::<(), StateFiError>(e) && *final(ctx) == *old(ctx),
            None => result == Ok::<(), StateFiError>(()) && *final(ctx)
                == complete_fiat_deposit_effect(*old(ctx), now),
        },
{
    if ctx.protocol_config.admin != ctx.admin {
        return Err(StateFiError::Unauthorized);
    }
    if ctx.fiat_deposit.status != DepositStatus::Pending {
        return Err(StateFiError::InvalidDepositStatus);
    }
    if ctx.vault.data.owner != ctx.fiat_deposit.user {
        return Err(StateFiError::InvalidVaultOwner);
    }
    if ctx.vault_token_account.owner != ctx.vault.key {
        return Err(StateFiError::InvalidTokenAccountOwner);
    }
    if ctx.vault_token_account.mint != ctx.fiat_deposit.mint {
        return Err(StateFiError::InvalidMint);
    }
    if ctx.treasury_token_account.mint != ctx.fiat_deposit.mint {
        return Err(StateFiError::InvalidMint);
    }
    if ctx.admin_token_account.mint != ctx.fiat_deposit.mint {
        return Err(StateFiError::InvalidMint);
    }
    if ctx.admin_token_account.owner != ctx.protocol_config.admin {
        return Err(StateFiError::InvalidTokenAccountOwner);
    }
    let amount = ctx.fiat_deposit.amount;
    let split = split_deposit(amount, ctx.protocol_config.admin_fee_basis_points);
    if ctx.treasury_token_account.amount < amount {
        return Err(StateFiError::InsufficientFunds);
    }
    if ctx.vault_token_account.amount > u64::MAX - split.user_amount
        || ctx.admin_token_account.amount > u64::MAX - split.fee {
        return Err(StateFiError::BalanceOverflow);
    }
    ctx.treasury_token_account.amount = ctx.treasury_token_account.amount - amount;
    ctx.vault_token_account.amount = ctx.vault_token_account.amount + split.user_amount;
    ctx.admin_token_account.amount = ctx.admin_token_account.amount + split.fee;
    ctx.fiat_deposit.status = DepositStatus::Completed;
    ctx.fiat_deposit.updated_at = now;
    Ok(())
}

/// A completion pays out of the treasury exactly the deposit's amount: the
/// fee, rounded down, to the administrator and the rest to the vault. No
/// token is made or lost.
pub proof fn lemma_completion_splits_the_amount(ctx: CompleteFiatDeposit, now: i64)
    requires
        ctx.protocol_config.wf(),
        complete_fiat_deposit_check(ctx) is None,
    ensures
        ({
            let after = complete_fiat_deposit_effect(ctx, now);
            let amount = ctx.fiat_deposit.amount as int;
            let fee = fee_of(amount, ctx.protocol_config.admin_fee_basis_points as int);
            let user_amount = amount - fee;
            &&& fee + user_amount == amount
            &&& 0 <= fee <= amount
            &&& after.admin_token_account.amount == ctx.admin_token_account.amount + fee
            &&& after.vault_token_account.amount == ctx.vault_token_account.amount + user_amount
            &&& after.treasury_token_account.amount == ctx.treasury_token_account.amount - amount
            &&& after.admin_token_account.amount + after.vault_token_account.amount
                + after.treasury_token_account.amount == ctx.admin_token_account.amount
                + ctx.vault_token_account.amount + ctx.treasury_token_account.amount
        }),
{
    lemma_fee_within_amount(
        ctx.fiat_deposit.amount as int,
        ctx.protocol_config.admin_fee_basis_points as int,
    );
}

/// A deposit leaves the pending state at most once: after a completion that
/// succeeded, a further completion on the same records is refused for the
/// deposit's status, and so changes no record and no balance.
pub proof fn lemma_deposit_completes_once(ctx: CompleteFiatDeposit, now: i64)
    requires
        complete_fiat_deposit_check(ctx) is None,
    ensures
        complete_fiat_deposit_effect(ctx, now).fiat_deposit.status == DepositStatus::Completed,
        complete_fiat_deposit_check(complete_fiat_deposit_effect(ctx, now)) == Some(
            StateFiError::InvalidDepositStatus,
        ),
{
}

/// Whatever else it is given, the administrator's completion of a deposit
/// that is not pending is refused for the deposit's status.
pub proof fn lemma_settled_deposit_is_refused(ctx: CompleteFiatDeposit)
    requires
        ctx.fiat_deposit.status != DepositStatus::Pending,
        ctx.protocol_config.admin == ctx.admin,
    ensures
        complete_fiat_deposit_check(ctx) == Some(StateFiError::InvalidDepositStatus),
{
}

/// Whatever else it is given, a completion by a caller who is not the
/// administrator is refused as unauthorized.
pub proof fn lemma_only_admin_completes_deposits(ctx: CompleteFiatDeposit)
    requires
        ctx.admin != ctx.protocol_config.admin,
    ensures
        complete_fiat_deposit_check(ctx) == Some(StateFiError::Unauthorized),
{
}

/// The place of a deposit takes one record: once a deposit is opened in it,
/// every further opening in the same place is refused, and for the place
/// being taken if amount and reference are valid.
pub proof fn lemma_deposit_place_is_taken_once(
    ctx: InitiateFiatDeposit,
    amount: u64,
    reference_id: String,
    now: i64,
    next_amount: u64,
    next_reference_id: String,
)
    requires
        initiate_fiat_deposit_check(ctx, amount, reference_id) is None,
    ensures
        ({
            let taken = InitiateFiatDeposit {
                fiat_deposit: Some(initiate_fiat_deposit_record(ctx, amount, reference_id, now)),
                ..ctx
            };
            let again = initiate_fiat_deposit_check(taken, next_amount, next_reference_id);
            &&& again is Some
            &&& (next_amount > 0 && next_reference_id@.len() <= MAX_REFERENCE_ID_LEN ==> again
                == Some(StateFiError::AccountAlreadyInUse))
        }),
{
}

/// In an empty place a deposit with a positive amount and a reference within
/// the limit is opened, whoever the user and whatever other deposits exist.
pub proof fn lemma_deposit_opens_in_empty_place(
    ctx: InitiateFiatDeposit,
    amount: u64,
    reference_id: String,
)
    requires
        ctx.fiat_deposit is None,
        amount > 0,
        reference_id@.len() <= MAX_REFERENCE_ID_LEN,
    ensures
        initiate_fiat_deposit_check(ctx, amount, reference_id) is None,
{
}

} // verus!
