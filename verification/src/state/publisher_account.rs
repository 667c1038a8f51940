//! The publisher record.

use vstd::prelude::*;
use crate::address::Address;
use crate::state::shared::PublisherStatus;

verus! {

/// A party that funds campaigns.
#[derive(Clone, Copy, Debug, PartialEq, Eq)]
pub struct PublisherAccount {
    pub authority: Address,
    pub total_campaigns: u64,
    pub total_spent: u64,
    pub registered_at: i64,
    pub status: PublisherStatus,
    pub bump: u8,
}

} // verus!
