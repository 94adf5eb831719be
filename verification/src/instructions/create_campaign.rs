//! Creation of a campaign.

use vstd::prelude::*;
use vstd::utf8::encode_utf8;
use crate::error::CampaignError;
use crate::pubkey::Pubkey;
use crate::state::campaign::{byte_len, Campaign, MAX_DESCRIPTION_LEN, MAX_NAME_LEN};
use crate::token::TokenAccount;

verus! {

/// What the creation of a campaign works on.
#[derive(Clone, Debug, PartialEq, Eq)]
pub struct CreateCampaign {
    /// The address derived from the creator and the name, at which the
    /// campaign's record is kept.
    pub campaign_key: Pubkey,
    /// The record that stands at that address, if there is one.
    pub campaign: Option<Campaign>,
    /// The bump with which that address was derived.
    pub bump: u8,
    /// The escrow account under the authority of that address, if it has
    /// been opened.
    pub service_provider_token_account: Option<TokenAccount>,
    /// The signer, who becomes the campaign's creator.
    pub creator: Pubkey,
    /// The asset type that the campaign is to accept.
    pub mint: Pubkey,
}

impl CreateCampaign {
    /// Why the creation is refused, if it is: the first of these that holds.
    /// The name is empty, or longer than 50 bytes; the description is empty,
    /// or longer than 200 bytes; the target is zero; a record stands at the
    /// campaign's address already; an escrow account is open there that is
    /// denominated in another asset type, or not under the authority of the
    /// campaign's address.
    pub open spec fn rejection(
        self,
        name: Seq<char>,
        description: Seq<char>,
        target_amount: u64,
    ) -> Option<CampaignError> {
        if name.len() == 0 {
            Some(CampaignError::NameCannotBeEmpty)
        } else if byte_len(name) > MAX_NAME_LEN {
            Some(CampaignError::NameTooLong)
        } else if description.len() == 0 {
            Some(CampaignError::DescriptionCannotBeEmpty)
        } else if byte_len(description) > MAX_DESCRIPTION_LEN {
            Some(CampaignError::DescriptionTooLong)
        } else if target_amount == 0 {
            Some(CampaignError::TargetAmountMustBePositive)
        } else if self.campaign is Some {
            Some(CampaignError::AlreadyExists)
        } else {
            match self.service_provider_token_account {
                Some(escrow) => if escrow.mint != self.mint {
                    Some(CampaignError::InvalidMint)
                } else if escrow.owner != self.campaign_key {
                    Some(CampaignError::AccountMismatch)
                } else {
                    None
                },
                None => None,
            }
        }
    }

    /// The escrow account after the creation: the one that was open, or a
    /// new, empty one for the campaign's asset type under the authority of
    /// the campaign's address.
    pub open spec fn escrow_after(self) -> TokenAccount {
        match self.service_provider_token_account {
            Some(escrow) => escrow,
            None => TokenAccount { mint: self.mint, owner: self.campaign_key, amount: 0 },
        }
    }
}

/// A text without characters has no bytes.
pub proof fn lemma_empty_text_has_no_bytes(text: Seq<char>)
    ensures
        text.len() == 0 ==> byte_len(text) == 0,
{
    if text.len() == 0 {
        assert(encode_utf8(text) =~= Seq::<u8>::empty());
    }
}

/// Creates the campaign `name` of the signer, with `target_amount` as its
/// target. A refused creation changes nothing. A performed one puts a record
/// at the campaign's address, with nothing donated and the threshold flag
/// lowered, and opens the escrow account unless it was open.
///
/// A name of more than 50 bytes is refused with `NameTooLong`, whatever else
/// holds.
pub fn create_campaign(
    ctx: &mut CreateCampaign,
    name: String,
    description: String,
    target_amount: u64,
) -> (result: Result<(), CampaignError>)
    ensures
        match old(ctx).rejection(name@, description@, target_amount) {
            Some(reason) => {
                &&& result == Err::<(), CampaignError>(reason)
                &&& *final(ctx) == *old(ctx)
            },
            None => {
                &&& result is Ok
                &&& final(ctx).campaign == Some(
                    Campaign {
                        creator: old(ctx).creator,
                        name: name,
                        description: description,
                        target_amount: target_amount,
                        amount_donated: 0,
                        mint: old(ctx).mint,
                        threshold_reached: false,
                        bump: old(ctx).bump,
                    },
                )
                &&& final(ctx).service_provider_token_account == Some(old(ctx).escrow_after())
                &&& final(ctx).campaign_key == old(ctx).campaign_key
                &&& final(ctx).bump == old(ctx).bump
                &&& final(ctx).creator == old(ctx).creator
                &&& final(ctx).mint == old(ctx).mint
                &&& final(ctx).campaign->0.is_valid()
                &&& old(ctx).escrow_after().amount == 0 ==> final(ctx).campaign->0.backed_by(
                    final(ctx).service_provider_token_account->0,
                )
            },
        },
        byte_len(name@) > MAX_NAME_LEN ==> result == Err::<(), CampaignError>(
            CampaignError::NameTooLong,
        ),
{
    proof {
        lemma_empty_text_has_no_bytes(name@);
    }
    if name.as_str().is_empty() {
        return Err(CampaignError::NameCannotBeEmpty);
    }
    if name.as_str().as_bytes().len() > MAX_NAME_LEN {
        return Err(CampaignError::NameTooLong);
    }
    if description.as_str().is_empty() {
        return Err(CampaignError::DescriptionCannotBeEmpty);
    }
    if description.as_str().as_bytes().len() > MAX_DESCRIPTION_LEN {
        return Err(CampaignError::DescriptionTooLong);
    }
    if target_amount == 0 {
        return Err(CampaignError::TargetAmountMustBePositive);
    }
    if ctx.campaign.is_some() {
        return Err(CampaignError::AlreadyExists);
    }
    let escrow = match ctx.service_provider_token_account {
        Some(escrow) => {
            if escrow.mint != ctx.mint {
                return Err(CampaignError::InvalidMint);
            }
            if escrow.owner != ctx.campaign_key {
                return Err(CampaignError::AccountMismatch);
            }
            escrow
        },
        None => TokenAccount { mint: ctx.mint, owner: ctx.campaign_key, amount: 0 },
    };
    ctx.campaign = Some(
        Campaign {
            creator: ctx.creator,
            name,
            description,
            target_amount,
            amount_donated: 0,
            mint: ctx.mint,
            threshold_reached: false,
            bump: ctx.bump,
        },
    );
    ctx.service_provider_token_account = Some(escrow);
    Ok(())
}

} // verus!
