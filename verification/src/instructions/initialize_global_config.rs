//! Creation of the configuration record.

use vstd::prelude::*;
use crate::error::CampaignError;
use crate::pubkey::Pubkey;
use crate::state::global_config::GlobalConfig;

verus! {

/// What the creation of the configuration record works on.
#[derive(Clone, Copy, Debug, PartialEq, Eq)]
pub struct InitializeGlobalConfig {
    /// The record that stands at the configuration's fixed address, if
    /// there is one.
    pub global_config: Option<GlobalConfig>,
    /// The bump with which that address was derived.
    pub bump: u8,
    /// The signer, who becomes the administrator.
    pub admin: Pubkey,
}

/// Creates the configuration record with the signer as administrator. Where
/// a record exists already the call is refused with `AlreadyExists` and
/// changes nothing.
pub fn initialize_global_config(ctx: &mut InitializeGlobalConfig) -> (result: Result<
    (),
    CampaignError,
>)
    ensures
        old(ctx).global_config is Some ==> {
            &&& result == Err::<(), CampaignError>(CampaignError::AlreadyExists)
            &&& *final(ctx) == *old(ctx)
        },
        old(ctx).global_config is None ==> {
            &&& result is Ok
            &&& *final(ctx) == (InitializeGlobalConfig {
                global_config: Some(GlobalConfig { admin: old(ctx).admin, bump: old(ctx).bump }),
                ..*old(ctx)
            })
        },
{
    if ctx.global_config.is_some() {
        return Err(CampaignError::AlreadyExists);
    }
    ctx.global_config = Some(GlobalConfig { admin: ctx.admin, bump: ctx.bump });
    Ok(())
}

} // verus!
