//! Update: a publisher changes the tags, the filters or the status of a campaign.

use vstd::prelude::*;
use crate::errors::SamizdatError;
use crate::state::account::{Account, Signer};
use crate::state::campaign_account::CampaignAccount;
use crate::state::publisher_account::PublisherAccount;
use crate::state::shared::{CampaignStatus, TargetFilters};

verus! {

/// The records an update touches.
#[derive(Clone, Debug, PartialEq, Eq)]
pub struct UpdateCampaign {
    pub campaign_account: Account<CampaignAccount>,
    pub publisher_account: Account<PublisherAccount>,
    /// The caller, who must control the publisher.
    pub authority: Signer,
}

/// The first reason to refuse the update, if there is one. A closed
/// campaign takes no update, and no update closes a campaign.
pub open spec fn update_rejection(ctx: UpdateCampaign, status: Option<CampaignStatus>) -> Option<
    SamizdatError,
> {
    if ctx.campaign_account.data.publisher_account != ctx.publisher_account.key {
        Some(SamizdatError::PublisherMismatch)
    } else if ctx.publisher_account.data.authority != ctx.authority.key {
        Some(SamizdatError::Unauthorized)
    } else if ctx.campaign_account.data.status == CampaignStatus::Closed {
        Some(SamizdatError::CampaignNotActive)
    } else if status == Some(CampaignStatus::Closed) {
        Some(SamizdatError::InvalidStatusTransition)
    } else {
        None
    }
}

/// The value of a field after an update: the new one where one is given.
pub open spec fn updated<T>(current: T, change: Option<T>) -> T {
    match change {
        Some(value) => value,
        None => current,
    }
}

/// The records after an update that was admitted: each field for which a
/// value was given holds that value, and every other field is as before.
pub open spec fn update_effect(
    ctx: UpdateCampaign,
    tag_mask: Option<u64>,
    target_filters: Option<TargetFilters>,
    status: Option<CampaignStatus>,
) -> UpdateCampaign {
    UpdateCampaign {
        campaign_account: Account {
            data: CampaignAccount {
                tag_mask: updated(ctx.campaign_account.data.tag_mask, tag_mask),
                target_filters: updated(ctx.campaign_account.data.target_filters, target_filters),
                status: updated(ctx.campaign_account.data.status, status),
                ..ctx.campaign_account.data
            },
            ..ctx.campaign_account
        },
        ..ctx
    }
}

/// Applies the changes that are given to the campaign.
pub fn process_update_campaign(
    ctx: &mut UpdateCampaign,
    tag_mask: Option<u64>,
    target_filters: Option<TargetFilters>,
    status: Option<CampaignStatus>,
) -> (result: Result<(), SamizdatError>)
    ensures
        match update_rejection(*old(ctx), status) {
            Some(error) => result == Err::<(), SamizdatError>(error) && *final(ctx) == *old(ctx),
            None => result is Ok && *final(ctx) == update_effect(
                *old(ctx),
                tag_mask,
                target_filters,
                status,
            ),
        },
        result is Ok ==> final(ctx).campaign_account.data.status != CampaignStatus::Closed,
        old(ctx).campaign_account.data@.well_formed()
            ==> final(ctx).campaign_account.data@.well_formed(),
{
    if ctx.campaign_account.data.publisher_account != ctx.publisher_account.key {
        return Err(SamizdatError::PublisherMismatch);
    }
    if ctx.publisher_account.data.authority != ctx.authority.key {
        return Err(SamizdatError::Unauthorized);
    }
    if ctx.campaign_account.data.status == CampaignStatus::Closed {
        return Err(SamizdatError::CampaignNotActive);
    }
    if let Some(requested) = status {
        if requested == CampaignStatus::Closed {
            return Err(SamizdatError::InvalidStatusTransition);
        }
    }
    if let Some(mask) = tag_mask {
        ctx.campaign_account.data.tag_mask = mask;
    }
    if let Some(filters) = target_filters {
        ctx.campaign_account.data.target_filters = filters;
    }
    if let Some(requested) = status {
        ctx.campaign_account.data.status = requested;
    }
    Ok(())
}

} // verus!
