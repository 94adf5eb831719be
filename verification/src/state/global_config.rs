//! The singleton record that names the administrator.

use vstd::prelude::*;
use crate::pubkey::Pubkey;

verus! {

/// The configuration of a deployment. There is one such record; it is
/// created once and only its administrator changes afterwards.
#[derive(Clone, Copy, Debug, PartialEq, Eq)]
pub struct GlobalConfig {
    /// The current administrator.
    pub admin: Pubkey,
    /// The bump with which the record's address was derived.
    pub bump: u8,
}

} // verus!
