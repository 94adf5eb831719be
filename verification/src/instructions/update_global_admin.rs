//! Handing the administration to another identity.

use vstd::prelude::*;
use crate::error::CampaignError;
use crate::pubkey::Pubkey;
use crate::state::global_config::GlobalConfig;

verus! {

/// What a change of administrator works on.
#[derive(Clone, Copy, Debug, PartialEq, Eq)]
pub struct UpdateGlobalAdmin {
    /// The configuration record.
    pub global_config: GlobalConfig,
    /// The signer, who claims to be the administrator.
    pub admin: Pubkey,
}

impl UpdateGlobalAdmin {
    /// Why the change to `new_admin` is refused, if it is: the signer is not
    /// the administrator, or else `new_admin` is the administrator already.
    pub open spec fn rejection(self, new_admin: Pubkey) -> Option<CampaignError> {
        if self.admin != self.global_config.admin {
            Some(CampaignError::UnauthorizedAdmin)
        } else if new_admin == self.global_config.admin {
            Some(CampaignError::AdminCannotBeSame)
        } else {
            None
        }
    }
}

/// Makes `new_admin` the administrator. Only the current administrator may
/// do so, and only for an identity other than its own. A refused change
/// leaves the record as it was.
pub fn update_global_admin(ctx: &mut UpdateGlobalAdmin, new_admin: Pubkey) -> (result: Result<
    (),
    CampaignError,
>)
    ensures
        match old(ctx).rejection(new_admin) {
            Some(reason) => {
                &&& result == Err::<(), CampaignError>(reason)
                &&& *final(ctx) == *old(ctx)
            },
            None => {
                &&& result is Ok
                &&& final(ctx).global_config == (GlobalConfig {
                    admin: new_admin,
                    bump: old(ctx).global_config.bump,
                })
                &&& final(ctx).admin == old(ctx).admin
            },
        },
        old(ctx).admin == old(ctx).global_config.admin && new_admin == old(
            ctx,
        ).global_config.admin ==> result == Err::<(), CampaignError>(
            CampaignError::AdminCannotBeSame,
        ),
        old(ctx).admin == old(ctx).global_config.admin && new_admin != old(
            ctx,
        ).global_config.admin ==> result is Ok && final(ctx).global_config.admin == new_admin,
{
    if ctx.admin != ctx.global_config.admin {
        return Err(CampaignError::UnauthorizedAdmin);
    }
    if new_admin == ctx.global_config.admin {
        return Err(CampaignError::AdminCannotBeSame);
    }
    ctx.global_config.admin = new_admin;
    Ok(())
}

/// Once the administration has been handed to `new_admin`, a further change
/// is open to `new_admin` and to nobody else: the signer of the next call is
/// refused as `UnauthorizedAdmin` exactly if it is another identity. The
/// administrator who handed over is among those refused.
pub proof fn lemma_handover_binds_next_call(
    ctx: UpdateGlobalAdmin,
    new_admin: Pubkey,
    next: UpdateGlobalAdmin,
    successor: Pubkey,
)
    requires
        ctx.rejection(new_admin) is None,
        next.global_config == (GlobalConfig { admin: new_admin, bump: ctx.global_config.bump }),
    ensures
        next.rejection(successor) == Some(CampaignError::UnauthorizedAdmin) <==> next.admin
            != new_admin,
        next.admin == ctx.admin ==> next.rejection(successor) == Some(
            CampaignError::UnauthorizedAdmin,
        ),
{
}

} // verus!
