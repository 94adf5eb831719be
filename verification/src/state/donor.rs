//! The contribution history of one donor to one campaign.

use vstd::prelude::*;
use crate::pubkey::Pubkey;

verus! {

/// What one donor has given to one campaign, over all rounds. It is a
/// history, not a balance: a withdrawal from the campaign leaves it as it is.
#[derive(Clone, Copy, Debug, PartialEq, Eq)]
pub struct Donor {
    /// The donor.
    pub donor: Pubkey,
    /// The address of the campaign's record.
    pub campaign: Pubkey,
    /// The sum of the donor's contributions to the campaign.
    pub amount_donated: u64,
    /// The bump with which the record's address was derived.
    pub bump: u8,
}

impl Donor {
    /// The record after a further contribution of `amount`.
    pub open spec fn after_donation(self, amount: u64) -> Donor {
        Donor { amount_donated: (self.amount_donated + amount) as u64, ..self }
    }
}

/// The sum that a donor's record shows, where a missing record shows nothing.
pub open spec fn contributed(record: Option<Donor>) -> u64 {
    match record {
        Some(donor) => donor.amount_donated,
        None => 0,
    }
}

} // verus!
