//! Add content: a publisher appends content identifiers to a campaign.

use vstd::prelude::*;
use crate::errors::SamizdatError;
use crate::state::account::{Account, Signer};
use crate::state::campaign_account::{are_valid_cids, valid_cids, CampaignAccount, CampaignView};
use crate::state::publisher_account::PublisherAccount;
use crate::state::shared::{strings_view, CampaignStatus, MAX_CIDS};

verus! {

/// The records an addition of content touches.
#[derive(Clone, Debug, PartialEq, Eq)]
pub struct AddCidsToCampaign {
    pub campaign_account: Account<CampaignAccount>,
    pub publisher_account: Account<PublisherAccount>,
    /// The caller, who must control the publisher.
    pub authority: Signer,
}

/// The first reason to refuse the addition, if there is one.
pub open spec fn add_cids_rejection(ctx: AddCidsToCampaign, new_cids: Seq<Seq<char>>) -> Option<
    SamizdatError,
> {
    if ctx.campaign_account.data.publisher_account != ctx.publisher_account.key {
        Some(SamizdatError::PublisherMismatch)
    } else if ctx.publisher_account.data.authority != ctx.authority.key {
        Some(SamizdatError::Unauthorized)
    } else if ctx.campaign_account.data.status != CampaignStatus::Active {
        Some(SamizdatError::CampaignNotActive)
    } else if ctx.campaign_account.data@.cids.len() + new_cids.len() > MAX_CIDS {
        Some(SamizdatError::TooManyCids)
    } else if !valid_cids(new_cids) {
        Some(SamizdatError::InvalidCid)
    } else {
        None
    }
}

/// The campaign after an addition that was admitted: the new identifiers
/// follow those it had, in their order.
pub open spec fn add_cids_effect(campaign: CampaignView, new_cids: Seq<Seq<char>>)
    -> CampaignView {
    CampaignView { cids: campaign.cids + new_cids, ..campaign }
}

/// The views of two lists of strings, one after the other, are the view of
/// the joined list.
pub proof fn lemma_strings_view_concat(first: Seq<String>, second: Seq<String>)
    ensures
        strings_view(first + second) == strings_view(first) + strings_view(second),
{
    assert(strings_view(first + second) =~= strings_view(first) + strings_view(second));
}

/// Appends `new_cids` to the content of the campaign.
pub fn process_add_cids_to_campaign(ctx: &mut AddCidsToCampaign, new_cids: Vec<String>) -> (result:
    Result<(), SamizdatError>)
    ensures
        match add_cids_rejection(*old(ctx), strings_view(new_cids@)) {
            Some(error) => result == Err::<(), SamizdatError>(error) && *final(ctx) == *old(ctx),
            None => {
                &&& result is Ok
                &&& final(ctx).campaign_account.data@ == add_cids_effect(
                    old(ctx).campaign_account.data@,
                    strings_view(new_cids@),
                )
                &&& *final(ctx) == AddCidsToCampaign {
                    campaign_account: Account {
                        data: CampaignAccount {
                            cids: final(ctx).campaign_account.data.cids,
                            ..old(ctx).campaign_account.data
                        },
                        ..old(ctx).campaign_account
                    },
                    ..*old(ctx)
                }
            },
        },
        old(ctx).campaign_account.data@.well_formed()
            ==> final(ctx).campaign_account.data@.well_formed(),
{
    if ctx.campaign_account.data.publisher_account != ctx.publisher_account.key {
        return Err(SamizdatError::PublisherMismatch);
    }
    if ctx.publisher_account.data.authority != ctx.authority.key {
        return Err(SamizdatError::Unauthorized);
    }
    if ctx.campaign_account.data.status != CampaignStatus::Active {
        return Err(SamizdatError::CampaignNotActive);
    }
    let held = ctx.campaign_account.data.cids.len();
    if new_cids.len() > MAX_CIDS || held > MAX_CIDS - new_cids.len() {
        return Err(SamizdatError::TooManyCids);
    }
    if !are_valid_cids(&new_cids) {
        return Err(SamizdatError::InvalidCid);
    }
    let mut incoming = new_cids;
    proof {
        lemma_strings_view_concat(ctx.campaign_account.data.cids@, incoming@);
    }
    ctx.campaign_account.data.cids.append(&mut incoming);
    Ok(())
}

} // verus!
