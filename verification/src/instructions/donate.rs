//! A donation to a campaign.

use vstd::prelude::*;
use crate::error::CampaignError;
use crate::pubkey::Pubkey;
use crate::state::campaign::Campaign;
use crate::state::donor::{contributed, Donor};
use crate::token::{credited, debited, transfer, transfer_rejection, TokenAccount};

verus! {

/// What a donation works on.
#[derive(Clone, Debug, PartialEq, Eq)]
pub struct Donate {
    /// The address of the campaign's record, which is the derived authority
    /// over the escrow account.
    pub campaign_key: Pubkey,
    /// The campaign's record.
    pub campaign: Campaign,
    /// The campaign's escrow account.
    pub campaign_token_account: TokenAccount,
    /// The signer, who gives.
    pub donor: Pubkey,
    /// The account that the funds leave.
    pub donor_token_account: TokenAccount,
    /// The record of what this donor has given to this campaign, if there is
    /// one yet.
    pub donor_pda: Option<Donor>,
    /// The bump with which the address of the donor's record was derived.
    pub donor_pda_bump: u8,
    /// The asset type that the signer names.
    pub mint: Pubkey,
}

impl Donate {
    /// Why the donation is refused, if it is: the first of these that holds.
    /// The named asset type is not the campaign's; the amount is zero; the
    /// donor's account is not denominated in the campaign's asset type; the
    /// escrow account is not under the campaign's derived authority; the
    /// donor's record is that of another donor or campaign; the transfer
    /// from the donor's account to the escrow account under the donor's
    /// authority is refused; the campaign's total, or the donor's, would
    /// exceed the 64-bit range.
    pub open spec fn rejection(self, amount: u64) -> Option<CampaignError> {
        if self.mint != self.campaign.mint {
            Some(CampaignError::InvalidMint)
        } else if amount == 0 {
            Some(CampaignError::DonationAmountMustBePositive)
        } else if self.donor_token_account.mint != self.mint {
            Some(CampaignError::InvalidMint)
        } else if self.campaign_token_account.owner != self.campaign_key {
            Some(CampaignError::AccountMismatch)
        } else if !self.donor_record_is_bound() {
            Some(CampaignError::AccountMismatch)
        } else {
            match transfer_rejection(
                self.donor_token_account,
                self.campaign_token_account,
                self.donor,
                amount,
            ) {
                Some(reason) => Some(reason),
                None => if !self.campaign.can_accept(amount) {
                    Some(CampaignError::Overflow)
                } else if contributed(self.donor_pda) + amount > u64::MAX {
                    Some(CampaignError::Overflow)
                } else {
                    None
                },
            }
        }
    }

    /// Whether the donor's record, if there is one, is that of this donor
    /// and this campaign.
    pub open spec fn donor_record_is_bound(self) -> bool {
        match self.donor_pda {
            Some(record) => record.donor == self.donor && record.campaign == self.campaign_key,
            None => true,
        }
    }

    /// The donor's record after a donation of `amount`: the existing record
    /// with `amount` added, or a new record for this donor and this campaign
    /// that shows `amount`.
    pub open spec fn donor_record_after(self, amount: u64) -> Donor {
        match self.donor_pda {
            Some(record) => record.after_donation(amount),
            None => Donor {
                donor: self.donor,
                campaign: self.campaign_key,
                amount_donated: amount,
                bump: self.donor_pda_bump,
            },
        }
    }

    /// The state after a donation of `amount`: the amount has moved from the
    /// donor's account to the escrow account and is added to the campaign's
    /// total and to the donor's.
    pub open spec fn accepted(self, amount: u64) -> Donate {
        Donate {
            campaign: self.campaign.after_donation(amount),
            campaign_token_account: credited(self.campaign_token_account, amount),
            donor_token_account: debited(self.donor_token_account, amount),
            donor_pda: Some(self.donor_record_after(amount)),
            ..self
        }
    }
}

/// Gives `amount` to the campaign and returns whether this donation is the
/// one that raised the threshold flag. A refused donation changes nothing. A
/// performed one moves `amount` from the donor's account to the escrow
/// account, adds it to the campaign's total and to the donor's record, which
/// is created if there was none, and raises the threshold flag if the total
/// has reached the target.
///
/// A donation that names another asset type than the campaign's is refused
/// with `InvalidMint`, whatever else holds. A donation to a campaign whose
/// threshold flag is raised never reports that it raised the flag. The two
/// accounts together hold what they held before. A valid record stays
/// valid, and an escrow account that holds what the record shows still does
/// so afterwards.
pub fn donate(ctx: &mut Donate, amount: u64) -> (result: Result<bool, CampaignError>)
    ensures
        match old(ctx).rejection(amount) {
            Some(reason) => {
                &&& result == Err::<bool, CampaignError>(reason)
                &&& *final(ctx) == *old(ctx)
            },
            None => {
                &&& result == Ok::<bool, CampaignError>(
                    old(ctx).campaign.crosses_threshold(amount),
                )
                &&& *final(ctx) == old(ctx).accepted(amount)
                &&& final(ctx).campaign.amount_donated == old(ctx).campaign.amount_donated + amount
                &&& final(ctx).campaign_token_account.amount
                    == old(ctx).campaign_token_account.amount + amount
                &&& contributed(final(ctx).donor_pda) == contributed(old(ctx).donor_pda) + amount
                &&& final(ctx).donor_pda is Some
                &&& final(ctx).donor_pda->0.donor == old(ctx).donor
                &&& final(ctx).donor_pda->0.campaign == old(ctx).campaign_key
            },
        },
        final(ctx).donor_token_account.amount + final(ctx).campaign_token_account.amount == old(
            ctx,
        ).donor_token_account.amount + old(ctx).campaign_token_account.amount,
        old(ctx).campaign.is_valid() ==> final(ctx).campaign.is_valid(),
        old(ctx).campaign.backed_by(old(ctx).campaign_token_account)
            ==> final(ctx).campaign.backed_by(final(ctx).campaign_token_account),
        old(ctx).campaign.threshold_reached ==> result != Ok::<bool, CampaignError>(true),
        old(ctx).mint != old(ctx).campaign.mint ==> {
            &&& result == Err::<bool, CampaignError>(CampaignError::InvalidMint)
            &&& *final(ctx) == *old(ctx)
        },
{
    if ctx.mint != ctx.campaign.mint {
        return Err(CampaignError::InvalidMint);
    }
    if amount == 0 {
        return Err(CampaignError::DonationAmountMustBePositive);
    }
    if ctx.donor_token_account.mint != ctx.mint {
        return Err(CampaignError::InvalidMint);
    }
    if ctx.campaign_token_account.owner != ctx.campaign_key {
        return Err(CampaignError::AccountMismatch);
    }
    match ctx.donor_pda {
        Some(record) => {
            if record.donor != ctx.donor || record.campaign != ctx.campaign_key {
                return Err(CampaignError::AccountMismatch);
            }
        },
        None => {},
    }
    let mut source = ctx.donor_token_account;
    let mut escrow = ctx.campaign_token_account;
    match transfer(&mut source, &mut escrow, ctx.donor, amount) {
        Err(reason) => {
            return Err(reason);
        },
        Ok(()) => {},
    }
    let total: u64 = match ctx.campaign.amount_donated.checked_add(amount) {
        None => {
            return Err(CampaignError::Overflow);
        },
        Some(total) => total,
    };
    let record = match ctx.donor_pda {
        Some(record) => {
            match record.amount_donated.checked_add(amount) {
                None => {
                    return Err(CampaignError::Overflow);
                },
                Some(given) => Donor { amount_donated: given, ..record },
            }
        },
        None => Donor {
            donor: ctx.donor,
            campaign: ctx.campaign_key,
            amount_donated: amount,
            bump: ctx.donor_pda_bump,
        },
    };
    let crossed = !ctx.campaign.threshold_reached && total >= ctx.campaign.target_amount;
    ctx.donor_token_account = source;
    ctx.campaign_token_account = escrow;
    ctx.campaign.amount_donated = total;
    if crossed {
        ctx.campaign.threshold_reached = true;
    }
    ctx.donor_pda = Some(record);
    Ok(crossed)
}

} // verus!
