//! The record of one fundraising campaign.

use vstd::prelude::*;
use vstd::slice::slice_to_vec;
use vstd::utf8::encode_utf8;
use crate::pubkey::Pubkey;
use crate::token::TokenAccount;

verus! {

/// The greatest length of a campaign's name, in bytes.
pub const MAX_NAME_LEN: usize = 50;

/// The greatest length of a campaign's description, in bytes.
pub const MAX_DESCRIPTION_LEN: usize = 200;

/// The tag that begins the seeds of every campaign address: the bytes of the
/// word "campaign".
pub const CAMPAIGN_SEED: [u8; 8] = [99, 97, 109, 112, 97, 105, 103, 110];

/// The length in bytes of a text in its UTF-8 encoding.
pub open spec fn byte_len(text: Seq<char>) -> nat {
    encode_utf8(text).len()
}

/// A fundraising goal, bound to its creator, to one asset type and to the
/// escrow account that its own derived address controls.
#[derive(Clone, Debug, PartialEq, Eq)]
pub struct Campaign {
    /// The identity that created the campaign.
    pub creator: Pubkey,
    /// The campaign's name: not empty, at most 50 bytes.
    pub name: String,
    /// The campaign's description: not empty, at most 200 bytes.
    pub description: String,
    /// The sum at which the creator may withdraw: more than zero.
    pub target_amount: u64,
    /// The sum of the donations of the current round.
    pub amount_donated: u64,
    /// The fund mint: the asset type that the campaign accepts.
    pub mint: Pubkey,
    /// Whether the donations of the current round have reached the target.
    pub threshold_reached: bool,
    /// The bump with which the record's address was derived from the
    /// creator and the name.
    pub bump: u8,
}

impl Campaign {
    /// What holds of every campaign record that the operations produce: the
    /// texts are within their bounds, the target is positive, and the
    /// threshold flag says whether the donations have reached the target.
    pub open spec fn is_valid(self) -> bool {
        &&& 0 < self.name@.len()
        &&& byte_len(self.name@) <= MAX_NAME_LEN
        &&& 0 < self.description@.len()
        &&& byte_len(self.description@) <= MAX_DESCRIPTION_LEN
        &&& 0 < self.target_amount
        &&& self.threshold_reached <==> self.amount_donated >= self.target_amount
    }

    /// The seeds from which the record's address is derived, and by which
    /// the record signs for the escrow account: the campaign tag, the
    /// creator's address, the name in UTF-8 and the bump.
    pub open spec fn signer_seeds_of(self) -> Seq<Seq<u8>> {
        seq![CAMPAIGN_SEED@, self.creator@, encode_utf8(self.name@), seq![self.bump]]
    }

    /// The seeds by which the record signs for the escrow account.
    pub fn signer_seeds(&self) -> (seeds: Vec<Vec<u8>>)
        ensures
            seeds.deep_view() == self.signer_seeds_of(),
            seeds@.len() == 4,
            seeds@[0]@ == CAMPAIGN_SEED@,
            seeds@[1]@ == self.creator@,
            seeds@[2]@ == encode_utf8(self.name@),
            seeds@[3]@ == seq![self.bump],
    {
        let tag = slice_to_vec(CAMPAIGN_SEED.as_slice());
        let creator = slice_to_vec(self.creator.bytes.as_slice());
        let name = slice_to_vec(self.name.as_str().as_bytes());
        let mut bump: Vec<u8> = Vec::new();
        bump.push(self.bump);
        let mut seeds: Vec<Vec<u8>> = Vec::new();
        seeds.push(tag);
        seeds.push(creator);
        seeds.push(name);
        seeds.push(bump);
        assert(seeds.deep_view() =~~= self.signer_seeds_of());
        seeds
    }

    /// Whether `escrow` holds exactly what the record shows as donated in
    /// the current round.
    pub open spec fn backed_by(self, escrow: TokenAccount) -> bool {
        escrow.amount == self.amount_donated
    }

    /// Whether a donation of `amount` fits into the running total.
    pub open spec fn can_accept(self, amount: u64) -> bool {
        self.amount_donated + amount <= u64::MAX
    }

    /// The record after a donation of `amount`: the total grows by `amount`,
    /// and the threshold flag is raised once the total has reached the
    /// target. A raised flag stays raised.
    pub open spec fn after_donation(self, amount: u64) -> Campaign {
        let total = (self.amount_donated + amount) as u64;
        Campaign {
            amount_donated: total,
            threshold_reached: self.threshold_reached || total >= self.target_amount,
            ..self
        }
    }

    /// Whether a donation of `amount` is the one that raises the threshold
    /// flag.
    pub open spec fn crosses_threshold(self, amount: u64) -> bool {
        !self.threshold_reached && self.amount_donated + amount >= self.target_amount
    }

    /// The record after a withdrawal: a new round begins with nothing
    /// donated and the threshold flag lowered.
    pub open spec fn after_withdrawal(self) -> Campaign {
        Campaign { amount_donated: 0, threshold_reached: false, ..self }
    }
}

} // verus!
