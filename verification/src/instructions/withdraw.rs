//! Withdrawal of a campaign's escrow balance by its creator.

use vstd::prelude::*;
use crate::error::CampaignError;
use crate::pubkey::Pubkey;
use crate::state::campaign::Campaign;
use crate::token::{credited, debited, transfer, transfer_rejection, TokenAccount};

verus! {

/// What a withdrawal works on.
#[derive(Clone, Debug, PartialEq, Eq)]
pub struct Withdraw {
    /// The address of the campaign's record, which is the derived authority
    /// over the escrow account.
    pub campaign_key: Pubkey,
    /// The campaign's record.
    pub campaign: Campaign,
    /// The campaign's escrow account.
    pub campaign_token_account: TokenAccount,
    /// The signer, who claims to be the campaign's creator.
    pub creator: Pubkey,
    /// The account that receives the funds.
    pub creator_token_account: TokenAccount,
    /// The asset type that the signer names.
    pub mint: Pubkey,
}

impl Withdraw {
    /// Why the withdrawal is refused, if it is: the first of these that
    /// holds. The signer is not the creator; the named asset type is not the
    /// campaign's; the threshold has not been reached; the escrow account is
    /// empty; the escrow account is not denominated in the campaign's asset
    /// type; the receiving account is not the signer's; the transfer of the
    /// whole escrow balance under the campaign's derived authority is
    /// refused.
    pub open spec fn rejection(self) -> Option<CampaignError> {
        if self.creator != self.campaign.creator {
            Some(CampaignError::Unauthorized)
        } else if self.mint != self.campaign.mint {
            Some(CampaignError::InvalidMint)
        } else if !self.campaign.threshold_reached {
            Some(CampaignError::ThresholdNotReached)
        } else if self.campaign_token_account.amount == 0 {
            Some(CampaignError::NoFundsToWithdraw)
        } else if self.campaign_token_account.mint != self.mint {
            Some(CampaignError::InvalidMint)
        } else if self.creator_token_account.owner != self.creator {
            Some(CampaignError::AccountMismatch)
        } else {
            transfer_rejection(
                self.campaign_token_account,
                self.creator_token_account,
                self.campaign_key,
                self.campaign_token_account.amount,
            )
        }
    }

    /// The state after the withdrawal: the whole escrow balance has moved to
    /// the receiving account and the campaign begins a new round.
    pub open spec fn accepted(self) -> Withdraw {
        Withdraw {
            campaign: self.campaign.after_withdrawal(),
            campaign_token_account: debited(
                self.campaign_token_account,
                self.campaign_token_account.amount,
            ),
            creator_token_account: credited(
                self.creator_token_account,
                self.campaign_token_account.amount,
            ),
            ..self
        }
    }
}

/// Hands the whole escrow balance of a campaign that has reached its
/// threshold to its creator, and returns the amount that moved. A refused
/// withdrawal changes nothing. A performed one empties the escrow account,
/// resets the campaign's total to zero and lowers its threshold flag, so that
/// the campaign can collect again.
///
/// The two accounts together hold what they held before. A valid record
/// stays valid, and after a withdrawal the escrow account holds what the
/// record shows: nothing. Funds leave only a campaign whose donations have
/// reached its target.
///
/// Whoever is not the creator is refused as `Unauthorized`, whatever else
/// holds. The creator, naming the campaign's asset type, is refused with
/// `ThresholdNotReached` as long as a valid record shows less than its
/// target.
pub fn withdraw(ctx: &mut Withdraw) -> (result: Result<u64, CampaignError>)
    ensures
        match old(ctx).rejection() {
            Some(reason) => {
                &&& result == Err::<u64, CampaignError>(reason)
                &&& *final(ctx) == *old(ctx)
            },
            None => {
                &&& result == Ok::<u64, CampaignError>(old(ctx).campaign_token_account.amount)
                &&& *final(ctx) == old(ctx).accepted()
                &&& final(ctx).campaign_token_account.amount == 0
                &&& final(ctx).campaign.amount_donated == 0
                &&& !final(ctx).campaign.threshold_reached
            },
        },
        final(ctx).campaign_token_account.amount + final(ctx).creator_token_account.amount == old(
            ctx,
        ).campaign_token_account.amount + old(ctx).creator_token_account.amount,
        old(ctx).campaign.is_valid() ==> final(ctx).campaign.is_valid(),
        result is Ok ==> final(ctx).campaign.backed_by(final(ctx).campaign_token_account),
        result is Ok && old(ctx).campaign.is_valid() ==> old(ctx).campaign.amount_donated >= old(
            ctx,
        ).campaign.target_amount,
        old(ctx).creator != old(ctx).campaign.creator ==> {
            &&& result == Err::<u64, CampaignError>(CampaignError::Unauthorized)
            &&& *final(ctx) == *old(ctx)
        },
        ({
            &&& old(ctx).creator == old(ctx).campaign.creator
            &&& old(ctx).mint == old(ctx).campaign.mint
            &&& old(ctx).campaign.is_valid()
            &&& old(ctx).campaign.amount_donated < old(ctx).campaign.target_amount
        }) ==> result == Err::<u64, CampaignError>(CampaignError::ThresholdNotReached),
{
    if ctx.creator != ctx.campaign.creator {
        return Err(CampaignError::Unauthorized);
    }
    if ctx.mint != ctx.campaign.mint {
        return Err(CampaignError::InvalidMint);
    }
    if !ctx.campaign.threshold_reached {
        return Err(CampaignError::ThresholdNotReached);
    }
    let amount: u64 = ctx.campaign_token_account.amount;
    if amount == 0 {
        return Err(CampaignError::NoFundsToWithdraw);
    }
    if ctx.campaign_token_account.mint != ctx.mint {
        return Err(CampaignError::InvalidMint);
    }
    if ctx.creator_token_account.owner != ctx.creator {
        return Err(CampaignError::AccountMismatch);
    }
    let mut escrow = ctx.campaign_token_account;
    let mut receiver = ctx.creator_token_account;
    match transfer(&mut escrow, &mut receiver, ctx.campaign_key, amount) {
        Err(reason) => Err(reason),
        Ok(()) => {
            ctx.campaign_token_account = escrow;
            ctx.creator_token_account = receiver;
            ctx.campaign.amount_donated = 0;
            ctx.campaign.threshold_reached = false;
            Ok(amount)
        },
    }
}

} // verus!
