//! Verified accounting and authorization core of a crowdfunding ledger.
//!
//! Campaigns collect donations of one asset type in a program-controlled
//! escrow account. Once the cumulative donations reach the campaign's target,
//! its creator may withdraw the whole escrow balance, which starts the next
//! round. A singleton configuration record names the administrator.
//!
//! Every operation takes the records and accounts it works on as plain
//! values, checks them, and either changes them all or none of them. The
//! host that stores the records, verifies signatures and moves the real
//! balances stays outside: it hands the values in and persists what comes
//! back.

pub mod error;
pub mod instructions;
pub mod lifecycle;
pub mod pubkey;
pub mod state;
pub mod token;

pub use crate::error::CampaignError;
pub use crate::instructions::{
    create_campaign, donate, initialize_global_config, update_global_admin, withdraw,
    CreateCampaign, Donate, InitializeGlobalConfig, UpdateGlobalAdmin, Withdraw,
};
pub use crate::pubkey::Pubkey;
pub use crate::state::{Campaign, Donor, GlobalConfig};
pub use crate::token::{transfer, TokenAccount};
