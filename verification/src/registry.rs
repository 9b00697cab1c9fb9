use crate::errors::StateFiError;
use crate::pubkey::Pubkey;
use crate::state::{
    text_len, ProtocolConfig, TokenWhitelist, MAX_NAME_LEN, MAX_SYMBOL_LEN,
};
use vstd::prelude::*;

verus! {

/// What the whitelisting of a token type works on.
#[derive(Clone, Debug, PartialEq, Eq)]
pub struct WhitelistToken {
    /// The caller.
    pub admin: Pubkey,
    pub protocol_config: ProtocolConfig,
    /// The token type.
    pub mint: Pubkey,
    /// The place of the entry of this token type: empty until it is created.
    pub token_whitelist: Option<TokenWhitelist>,
    /// The salt with which the place of the record was derived.
    pub bump: u8,
}

/// The first rule that the whitelisting of a token type would break.
pub open spec fn whitelist_token_check(ctx: WhitelistToken, symbol: String, name: String) -> Option<
    StateFiError,
> {
    if ctx.protocol_config.admin != ctx.admin {
        Some(StateFiError::Unauthorized)
    } else if symbol@.len() > MAX_SYMBOL_LEN {
        Some(StateFiError::StringTooLong)
    } else if name@.len() > MAX_NAME_LEN {
        Some(StateFiError::StringTooLong)
    } else if ctx.token_whitelist is Some {
        Some(StateFiError::AccountAlreadyInUse)
    } else {
        None
    }
}

/// The entry that the administrator creates for `ctx.mint` at the time `now`.
pub open spec fn whitelist_token_record(
    ctx: WhitelistToken,
    symbol: String,
    name: String,
    is_stable: bool,
    now: i64,
) -> TokenWhitelist {
    TokenWhitelist {
        mint: ctx.mint,
        symbol,
        name,
        is_stable,
        is_active: true,
        created_at: now,
        bump: ctx.bump,
    }
}

/// Enters a token type in the registry, switched on. Only the administrator
/// may do so.
pub fn whitelist_token(
    ctx: &mut WhitelistToken,
    symbol: String,
    name: String,
    is_stable: bool,
    now: i64,
) -> (result: Result<(), StateFiError>)
    ensures
        match whitelist_token_check(*old(ctx), symbol, name) {
            Some(e) => result == Err::<(), StateFiError>(e) && *final(ctx) == *old(ctx),
            None => result == Ok::<(), StateFiError>(()) && *final(ctx) == (WhitelistToken {
                token_whitelist: Some(
                    whitelist_token_record(*old(ctx), symbol, name, is_stable, now),
                ),
                ..*old(ctx)
            }) && final(ctx).token_whitelist.unwrap().wf(),
        },
{
    if ctx.protocol_config.admin != ctx.admin {
        return Err(StateFiError::Unauthorized);
    }
    if text_len(&symbol) > MAX_SYMBOL_LEN {
        return Err(StateFiError::StringTooLong);
    }
    if text_len(&name) > MAX_NAME_LEN {
        return Err(StateFiError::StringTooLong);
    }
    if ctx.token_whitelist.is_some() {
        return Err(StateFiError::AccountAlreadyInUse);
    }
    ctx.token_whitelist = Some(
        TokenWhitelist {
            mint: ctx.mint,
            symbol,
            name,
            is_stable,
            is_active: true,
            created_at: now,
            bump: ctx.bump,
        },
    );
    Ok(())
}

/// Whatever else it is given, a whitelisting by a caller who is not the
/// administrator is refused as unauthorized.
pub proof fn lemma_only_admin_whitelists(ctx: WhitelistToken, symbol: String, name: String)
    requires
        ctx.admin != ctx.protocol_config.admin,
    ensures
        whitelist_token_check(ctx, symbol, name) == Some(StateFiError::Unauthorized),
{
}

} // verus!
