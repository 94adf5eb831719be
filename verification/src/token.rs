//! Token accounts and the transfer of balances between them.

use vstd::prelude::*;
use crate::error::CampaignError;
use crate::pubkey::Pubkey;

verus! {

/// A balance of one asset type, controlled by its owner.
#[derive(Clone, Copy, Debug, PartialEq, Eq)]
pub struct TokenAccount {
    /// The asset type in which the balance is denominated.
    pub mint: Pubkey,
    /// The identity whose authority moves the balance.
    pub owner: Pubkey,
    /// The balance held.
    pub amount: u64,
}

/// Why a transfer of `amount` from `from` to `to` under `authority` is
/// refused, if it is: the first of these that holds. The two accounts are
/// denominated in different asset types; `authority` does not control `from`;
/// `from` holds less than `amount`; the balance of `to` would exceed the
/// 64-bit range.
pub open spec fn transfer_rejection(
    from: TokenAccount,
    to: TokenAccount,
    authority: Pubkey,
    amount: u64,
) -> Option<CampaignError> {
    if from.mint != to.mint {
        Some(CampaignError::InvalidMint)
    } else if from.owner != authority {
        Some(CampaignError::AccountMismatch)
    } else if from.amount < amount {
        Some(CampaignError::InsufficientFunds)
    } else if to.amount + amount > u64::MAX {
        Some(CampaignError::Overflow)
    } else {
        None
    }
}

/// The account `account` with `amount` taken out of its balance.
pub open spec fn debited(account: TokenAccount, amount: u64) -> TokenAccount {
    TokenAccount { amount: (account.amount - amount) as u64, ..account }
}

/// The account `account` with `amount` added to its balance.
pub open spec fn credited(account: TokenAccount, amount: u64) -> TokenAccount {
    TokenAccount { amount: (account.amount + amount) as u64, ..account }
}

/// Moves `amount` from `from` to `to` under `authority`. A refused transfer
/// leaves both accounts as they were; a performed one changes the two
/// balances and nothing else, so that their sum stays the same.
pub fn transfer(
    from: &mut TokenAccount,
    to: &mut TokenAccount,
    authority: Pubkey,
    amount: u64,
) -> (result: Result<(), CampaignError>)
    ensures
        match transfer_rejection(*old(from), *old(to), authority, amount) {
            Some(reason) => {
                &&& result == Err::<(), CampaignError>(reason)
                &&& *final(from) == *old(from)
                &&& *final(to) == *old(to)
            },
            None => {
                &&& result is Ok
                &&& *final(from) == debited(*old(from), amount)
                &&& *final(to) == credited(*old(to), amount)
                &&& final(from).amount + final(to).amount == old(from).amount + old(to).amount
            },
        },
{
    if from.mint != to.mint {
        return Err(CampaignError::InvalidMint);
    }
    if from.owner != authority {
        return Err(CampaignError::AccountMismatch);
    }
    if from.amount < amount {
        return Err(CampaignError::InsufficientFunds);
    }
    match to.amount.checked_add(amount) {
        None => Err(CampaignError::Overflow),
        Some(balance) => {
            from.amount = from.amount - amount;
            to.amount = balance;
            Ok(())
        },
    }
}

} // verus!
