//! The operations: each is one validated, all-or-nothing state transition.

pub mod create_campaign;
pub mod donate;
pub mod initialize_global_config;
pub mod update_global_admin;
pub mod withdraw;

pub use self::create_campaign::{create_campaign, CreateCampaign};
pub use self::donate::{donate, Donate};
pub use self::initialize_global_config::{initialize_global_config, InitializeGlobalConfig};
pub use self::update_global_admin::{update_global_admin, UpdateGlobalAdmin};
pub use self::withdraw::{withdraw, Withdraw};
