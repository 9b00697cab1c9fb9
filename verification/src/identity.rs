use crate::errors::StateFiError;
use crate::pubkey::Pubkey;
use crate::state::{text_len, UserProfile, Vault, MAX_EMAIL_LEN, MAX_NAME_LEN};
use vstd::prelude::*;

verus! {

/// What the creation of a user's profile works on.
#[derive(Clone, Debug, PartialEq, Eq)]
pub struct CreateUserProfile {
    /// The caller.
    pub user: Pubkey,
    /// The place of the caller's profile: empty until it is created.
    pub user_profile: Option<UserProfile>,
    /// The salt with which the place of the record was derived.
    pub bump: u8,
}

/// The first rule that the creation of a profile would break.
pub open spec fn create_user_profile_check(
    ctx: CreateUserProfile,
    name: String,
    email: String,
) -> Option<StateFiError> {
    if name@.len() > MAX_NAME_LEN {
        Some(StateFiError::StringTooLong)
    } else if email@.len() > MAX_EMAIL_LEN {
        Some(StateFiError::StringTooLong)
    } else if ctx.user_profile is Some {
        Some(StateFiError::AccountAlreadyInUse)
    } else {
        None
    }
}

/// The profile that `ctx.user` creates at the time `now`.
pub open spec fn create_user_profile_record(
    ctx: CreateUserProfile,
    name: String,
    email: String,
    now: i64,
) -> UserProfile {
    UserProfile {
        owner: ctx.user,
        name,
        email,
        is_kyc_verified: false,
        created_at: now,
        bump: ctx.bump,
    }
}

/// Creates the caller's profile. It starts without a verified identity.
pub fn create_user_profile(
    ctx: &mut CreateUserProfile,
    name: String,
    email: String,
    now: i64,
) -> (result: Result<(), StateFiError>)
    ensures
        match create_user_profile_check(*old(ctx), name, email) {
            Some(e) => result == Err::<(), StateFiError>(e) && *final(ctx) == *old(ctx),
            None => result == Ok::<(), StateFiError>(()) && *final(ctx) == (CreateUserProfile {
                user_profile: Some(create_user_profile_record(*old(ctx), name, email, now)),
                ..*old(ctx)
            }) && final(ctx).user_profile.unwrap().wf(),
        },
{
    if text_len(&name) > MAX_NAME_LEN {
        return Err(StateFiError::StringTooLong);
    }
    if text_len(&email) > MAX_EMAIL_LEN {
        return Err(StateFiError::StringTooLong);
    }
    if ctx.user_profile.is_some() {
        return Err(StateFiError::AccountAlreadyInUse);
    }
    ctx.user_profile = Some(
        UserProfile {
            owner: ctx.user,
            name,
            email,
            is_kyc_verified: false,
            created_at: now,
            bump: ctx.bump,
        },
    );
    Ok(())
}

/// What the creation of a user's vault works on.
#[derive(Clone, Debug, PartialEq, Eq)]
pub struct CreateVault {
    /// The caller.
    pub user: Pubkey,
    pub user_profile: UserProfile,
    /// The place of the vault of the profile's owner: empty until it is created.
    pub vault: Option<Vault>,
    /// The salt with which the place of the record was derived.
    pub bump: u8,
}

/// The first rule that the creation of a vault would break.
pub open spec fn create_vault_check(ctx: CreateVault) -> Option<StateFiError> {
    if ctx.user != ctx.user_profile.owner {
        Some(StateFiError::InvalidOwner)
    } else if ctx.vault is Some {
        Some(StateFiError::AccountAlreadyInUse)
    } else {
        None
    }
}

/// The vault that the owner of the profile in `ctx` creates at the time `now`.
pub open spec fn create_vault_record(ctx: CreateVault, now: i64) -> Vault {
    Vault { owner: ctx.user_profile.owner, created_at: now, bump: ctx.bump }
}

/// Creates the vault of the caller, who must own the profile.
pub fn create_vault(ctx: &mut CreateVault, now: i64) -> (result: Result<(), StateFiError>)
    ensures
        match create_vault_check(*old(ctx)) {
            Some(e) => result == Err::<(), StateFiError>(e) && *final(ctx) == *old(ctx),
            None => result == Ok::<(), StateFiError>(()) && *final(ctx) == (CreateVault {
                vault: Some(create_vault_record(*old(ctx), now)),
                ..*old(ctx)
            }),
        },
{
    if ctx.user != ctx.user_profile.owner {
        return Err(StateFiError::InvalidOwner);
    }
    if ctx.vault.is_some() {
        return Err(StateFiError::AccountAlreadyInUse);
    }
    ctx.vault = Some(Vault { owner: ctx.user_profile.owner, created_at: now, bump: ctx.bump });
    Ok(())
}

} // verus!
