use crate::errors::StateFiError;
use crate::pubkey::Pubkey;
use crate::state::{ProtocolConfig, MAX_FEE_BASIS_POINTS};
use vstd::prelude::*;

verus! {

/// What the bootstrap of the protocol works on.
#[derive(Clone, Copy, Debug, PartialEq, Eq)]
pub struct InitializeProtocol {
    /// The caller, who becomes the administrator.
    pub admin: Pubkey,
    /// The place of the configuration record: empty until the bootstrap.
    pub protocol_config: Option<ProtocolConfig>,
    /// The salt with which the place of the record was derived.
    pub bump: u8,
}

/// The first rule that a bootstrap with this fee rate would break.
pub open spec fn initialize_protocol_check(
    ctx: InitializeProtocol,
    admin_fee_basis_points: u16,
) -> Option<StateFiError> {
    if admin_fee_basis_points > MAX_FEE_BASIS_POINTS {
        Some(StateFiError::InvalidFeeBasisPoints)
    } else if ctx.protocol_config is Some {
        Some(StateFiError::AccountAlreadyInUse)
    } else {
        None
    }
}

/// The configuration that a bootstrap by `ctx.admin` creates.
pub open spec fn initialize_protocol_record(
    ctx: InitializeProtocol,
    admin_fee_basis_points: u16,
) -> ProtocolConfig {
    ProtocolConfig { admin: ctx.admin, admin_fee_basis_points, bump: ctx.bump }
}

/// Creates the configuration record, with the caller as administrator and
/// the given fee on deposits.
pub fn initialize_protocol(
    ctx: &mut InitializeProtocol,
    admin_fee_basis_points: u16,
) -> (result: Result<(), StateFiError>)
    ensures
        match initialize_protocol_check(*old(ctx), admin_fee_basis_points) {
            Some(e) => result == Err::<(), StateFiError>(e) && *final(ctx) == *old(ctx),
            None => result == Ok::<(), StateFiError>(()) && *final(ctx) == (InitializeProtocol {
                protocol_config: Some(
                    initialize_protocol_record(*old(ctx), admin_fee_basis_points),
                ),
                ..*old(ctx)
            }) && final(ctx).protocol_config.unwrap().wf(),
        },
{
    if admin_fee_basis_points > MAX_FEE_BASIS_POINTS {
        return Err(StateFiError::InvalidFeeBasisPoints);
    }
    if ctx.protocol_config.is_some() {
        return Err(StateFiError::AccountAlreadyInUse);
    }
    ctx.protocol_config = Some(
        ProtocolConfig { admin: ctx.admin, admin_fee_basis_points, bump: ctx.bump },
    );
    Ok(())
}

} // verus!
