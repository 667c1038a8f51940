//! The cooldown record.

use vstd::prelude::*;
use crate::address::Address;

verus! {

/// When a node last claimed a campaign. There is one such record for each
/// pair of a campaign and a node; a pair that never claimed holds zero.
#[derive(Clone, Copy, Debug, PartialEq, Eq)]
pub struct ClaimCooldown {
    pub campaign: Address,
    pub node: Address,
    pub last_claimed_at: i64,
    pub bump: u8,
}

} // verus!
