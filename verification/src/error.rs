//! Reasons for which an operation is rejected.

use vstd::prelude::*;

verus! {

/// Why an operation was rejected. A rejected operation changes nothing.
#[derive(Clone, Copy, Debug, PartialEq, Eq, Structural)]
pub enum CampaignError {
    /// The asset type offered is not the one the campaign is bound to.
    InvalidMint,
    /// The signer is not the campaign's creator.
    Unauthorized,
    /// The cumulative donations have not reached the target in this round.
    ThresholdNotReached,
    /// A running total would exceed the 64-bit range.
    Overflow,
    /// The escrow account holds nothing.
    NoFundsToWithdraw,
    /// The signer is not the administrator.
    UnauthorizedAdmin,
    /// The new administrator is the current one.
    AdminCannotBeSame,
    /// The campaign's name is empty.
    NameCannotBeEmpty,
    /// The campaign's name is longer than 50 bytes.
    NameTooLong,
    /// The campaign's description is empty.
    DescriptionCannotBeEmpty,
    /// The campaign's description is longer than 200 bytes.
    DescriptionTooLong,
    /// The target amount is zero.
    TargetAmountMustBePositive,
    /// The donated amount is zero.
    DonationAmountMustBePositive,
    /// A record already stands at the address where one was to be created.
    AlreadyExists,
    /// An account or a record is not bound to the identity for which it is
    /// used: the authority that moves funds does not control the account
    /// they leave, the account they enter is not held by the intended owner,
    /// or a donor's record belongs to another donor or campaign.
    AccountMismatch,
    /// The account that the funds leave holds less than the amount.
    InsufficientFunds,
}

} // verus!
