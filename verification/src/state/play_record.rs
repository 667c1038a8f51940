//! The play record.

use vstd::prelude::*;
use crate::address::Address;
use crate::state::shared::{PlayStatus, PLAY_TIMEOUT_SECONDS};

verus! {

/// One play slot that a node reserved against a campaign.
#[derive(Clone, Copy, Debug, PartialEq, Eq)]
pub struct PlayRecord {
    pub campaign_account: Address,
    pub node_account: Address,
    pub nonce: i64,
    pub claimed_at: i64,
    pub confirmed_at: i64,
    pub cid_index: u8,
    pub payment_amount: u64,
    pub status: PlayStatus,
    pub bump: u8,
}

/// The last moment at which a play claimed at `claimed_at` can be confirmed.
pub open spec fn confirmation_deadline(claimed_at: i64) -> int {
    claimed_at + PLAY_TIMEOUT_SECONDS
}

impl PlayRecord {
    /// Whether the record is an unresolved claim against the campaign at `campaign`.
    pub open spec fn is_open_against(&self, campaign: Address) -> bool {
        self.campaign_account == campaign && self.status == PlayStatus::Claimed
    }

    /// Whether `now` is inside the confirmation window, its last moment included.
    pub open spec fn spec_in_confirmation_window(&self, now: i64) -> bool {
        now <= confirmation_deadline(self.claimed_at)
    }

    /// Whether the play can still be confirmed at `now`.
    #[verifier::when_used_as_spec(spec_in_confirmation_window)]
    pub fn in_confirmation_window(&self, now: i64) -> (open: bool)
        ensures
            open == self.spec_in_confirmation_window(now),
    {
        match self.claimed_at.checked_add(PLAY_TIMEOUT_SECONDS) {
            Some(deadline) => now <= deadline,
            None => true,
        }
    }
}

} // verus!
