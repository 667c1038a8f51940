//! The campaign record.

use vstd::prelude::*;
use vstd::string::StrSliceExecFns;
use crate::address::Address;
use crate::state::shared::{
    strings_view, CampaignStatus, TargetFilters, TargetFiltersView, MAX_CIDS, MAX_CID_LENGTH,
};

verus! {

/// An advertising budget with its content, its targeting and its payout terms.
#[derive(Clone, Debug, PartialEq, Eq)]
pub struct CampaignAccount {
    pub publisher_account: Address,
    pub campaign_id: u64,
    pub cids: Vec<String>,
    pub bounty_per_play: u64,
    pub plays_remaining: u64,
    pub plays_completed: u64,
    pub tag_mask: u64,
    pub target_filters: TargetFilters,
    pub status: CampaignStatus,
    /// Least number of seconds between two claims by one node.
    pub claim_cooldown: i64,
    pub created_at: i64,
    pub bump: u8,
}

/// The campaign as mathematical values.
pub struct CampaignView {
    pub publisher_account: Address,
    pub campaign_id: u64,
    pub cids: Seq<Seq<char>>,
    pub bounty_per_play: u64,
    pub plays_remaining: u64,
    pub plays_completed: u64,
    pub tag_mask: u64,
    pub target_filters: TargetFiltersView,
    pub status: CampaignStatus,
    pub claim_cooldown: i64,
    pub created_at: i64,
    pub bump: u8,
}

impl View for CampaignAccount {
    type V = CampaignView;

    open spec fn view(&self) -> CampaignView {
        CampaignView {
            publisher_account: self.publisher_account,
            campaign_id: self.campaign_id,
            cids: strings_view(self.cids@),
            bounty_per_play: self.bounty_per_play,
            plays_remaining: self.plays_remaining,
            plays_completed: self.plays_completed,
            tag_mask: self.tag_mask,
            target_filters: self.target_filters@,
            status: self.status,
            claim_cooldown: self.claim_cooldown,
            created_at: self.created_at,
            bump: self.bump,
        }
    }
}

/// Whether `cid` has at least one character and no more than the limit.
pub open spec fn valid_cid(cid: Seq<char>) -> bool {
    1 <= cid.len() <= MAX_CID_LENGTH
}

/// Whether every identifier of `cids` is valid.
pub open spec fn valid_cids(cids: Seq<Seq<char>>) -> bool {
    forall|i: int| 0 <= i < cids.len() ==> valid_cid(#[trigger] cids[i])
}

/// Whether `cid` is a valid content identifier.
pub fn is_valid_cid(cid: &String) -> (valid: bool)
    ensures
        valid == valid_cid(cid@),
{
    let length = cid.as_str().unicode_len();
    1 <= length && length <= MAX_CID_LENGTH
}

/// Whether every identifier of `cids` is valid.
pub fn are_valid_cids(cids: &Vec<String>) -> (valid: bool)
    ensures
        valid == valid_cids(strings_view(cids@)),
{
    let ghost views = strings_view(cids@);
    let mut i: usize = 0;
    while i < cids.len()
        invariant
            i <= cids.len(),
            views == strings_view(cids@),
            forall|j: int| 0 <= j < i ==> valid_cid(#[trigger] views[j]),
        decreases cids.len() - i,
    {
        if !is_valid_cid(&cids[i]) {
            assert(!valid_cid(views[i as int]));
            return false;
        }
        i += 1;
    }
    true
}

impl CampaignView {
    /// What holds of every campaign that was created and then only changed
    /// by the operations of this library.
    pub open spec fn well_formed(&self) -> bool {
        &&& 1 <= self.cids.len() <= MAX_CIDS
        &&& valid_cids(self.cids)
        &&& self.bounty_per_play > 0
        &&& self.claim_cooldown >= 0
    }
}

} // verus!
