//! The records that the ledger keeps.

pub mod campaign;
pub mod donor;
pub mod global_config;

pub use self::campaign::Campaign;
pub use self::donor::Donor;
pub use self::global_config::GlobalConfig;
