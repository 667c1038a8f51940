//! Fund: a publisher adds to the balance of one of its campaigns.

use vstd::prelude::*;
use crate::errors::SamizdatError;
use crate::escrow::{deposit, spec_deposit};
use crate::state::account::{Account, Signer};
use crate::state::campaign_account::CampaignAccount;
use crate::state::publisher_account::PublisherAccount;
use crate::state::shared::CampaignStatus;

verus! {

/// The records a funding touches.
#[derive(Clone, Debug, PartialEq, Eq)]
pub struct FundCampaign {
    pub campaign_account: Account<CampaignAccount>,
    pub publisher_account: Account<PublisherAccount>,
    /// The caller, who must control the publisher and pays the amount.
    pub authority: Signer,
}

/// The status of a campaign after it received funds: a depleted campaign
/// becomes paused, so that it serves again only when its publisher says so.
pub open spec fn status_after_funding(status: CampaignStatus) -> CampaignStatus {
    if status == CampaignStatus::Depleted {
        CampaignStatus::Paused
    } else {
        status
    }
}

/// The first reason to refuse the funding, if there is one.
pub open spec fn fund_rejection(ctx: FundCampaign, amount: u64) -> Option<SamizdatError> {
    if ctx.campaign_account.data.publisher_account != ctx.publisher_account.key {
        Some(SamizdatError::PublisherMismatch)
    } else if ctx.publisher_account.data.authority != ctx.authority.key {
        Some(SamizdatError::Unauthorized)
    } else if ctx.campaign_account.data.status == CampaignStatus::Closed {
        Some(SamizdatError::CampaignNotActive)
    } else if amount == 0 {
        Some(SamizdatError::InvalidAmount)
    } else {
        match spec_deposit(ctx.authority.lamports, ctx.campaign_account.lamports, amount) {
            Err(error) => Some(error),
            Ok(_) => None,
        }
    }
}

/// The records after a funding that was admitted: the amount moved from
/// the caller to the campaign, and a depleted campaign is now paused.
pub open spec fn fund_effect(ctx: FundCampaign, amount: u64) -> FundCampaign {
    FundCampaign {
        campaign_account: Account {
            key: ctx.campaign_account.key,
            lamports: (ctx.campaign_account.lamports + amount) as u64,
            data: CampaignAccount {
                status: status_after_funding(ctx.campaign_account.data.status),
                ..ctx.campaign_account.data
            },
        },
        authority: Signer { lamports: (ctx.authority.lamports - amount) as u64, ..ctx.authority },
        ..ctx
    }
}

/// Adds `amount` to the balance of the campaign.
pub fn process_fund_campaign(ctx: &mut FundCampaign, amount: u64) -> (result: Result<
    (),
    SamizdatError,
>)
    ensures
        match fund_rejection(*old(ctx), amount) {
            Some(error) => result == Err::<(), SamizdatError>(error) && *final(ctx) == *old(ctx),
            None => result is Ok && *final(ctx) == fund_effect(*old(ctx), amount),
        },
        result is Ok && old(ctx).campaign_account.data.status == CampaignStatus::Depleted
            ==> final(ctx).campaign_account.data.status == CampaignStatus::Paused,
        result is Ok && old(ctx).campaign_account.data.status != CampaignStatus::Active
            ==> final(ctx).campaign_account.data.status != CampaignStatus::Active,
        old(ctx).campaign_account.data.publisher_account == old(ctx).publisher_account.key
            && old(ctx).publisher_account.data.authority == old(ctx).authority.key
            && old(ctx).campaign_account.data.status != CampaignStatus::Closed && 0 < amount
            <= old(ctx).authority.lamports && old(ctx).campaign_account.lamports + amount
            <= u64::MAX ==> result is Ok,
        result is Ok ==> final(ctx).campaign_account.lamports + final(ctx).authority.lamports
            == old(ctx).campaign_account.lamports + old(ctx).authority.lamports,
        old(ctx).campaign_account.data@.well_formed()
            ==> final(ctx).campaign_account.data@.well_formed(),
{
    if ctx.campaign_account.data.publisher_account != ctx.publisher_account.key {
        return Err(SamizdatError::PublisherMismatch);
    }
    if ctx.publisher_account.data.authority != ctx.authority.key {
        return Err(SamizdatError::Unauthorized);
    }
    if ctx.campaign_account.data.status == CampaignStatus::Closed {
        return Err(SamizdatError::CampaignNotActive);
    }
    if amount == 0 {
        return Err(SamizdatError::InvalidAmount);
    }
    let (payer_after, campaign_after) = match deposit(
        ctx.authority.lamports,
        ctx.campaign_account.lamports,
        amount,
    ) {
        Ok(balances) => balances,
        Err(error) => {
            return Err(error);
        },
    };
    ctx.authority.lamports = payer_after;
    ctx.campaign_account.lamports = campaign_after;
    if ctx.campaign_account.data.status == CampaignStatus::Depleted {
        ctx.campaign_account.data.status = CampaignStatus::Paused;
    }
    Ok(())
}

} // verus!
