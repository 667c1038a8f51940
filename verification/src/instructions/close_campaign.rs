//! Close: a publisher ends a campaign and takes back what it holds.

use vstd::prelude::*;
use crate::errors::SamizdatError;
use crate::escrow::pay_out;
use crate::state::account::{Account, Signer};
use crate::state::campaign_account::CampaignAccount;
use crate::state::publisher_account::PublisherAccount;
use crate::state::shared::CampaignStatus;

verus! {

/// The records a closing touches.
#[derive(Clone, Debug, PartialEq, Eq)]
pub struct CloseCampaign {
    pub campaign_account: Account<CampaignAccount>,
    pub publisher_account: Account<PublisherAccount>,
    /// The caller, who must control the publisher and receives the balance.
    pub authority: Signer,
}

/// The first reason to refuse the closing, if there is one. Play records
/// that are still claimed do not stand in its way.
pub open spec fn close_rejection(ctx: CloseCampaign) -> Option<SamizdatError> {
    if ctx.campaign_account.data.publisher_account != ctx.publisher_account.key {
        Some(SamizdatError::PublisherMismatch)
    } else if ctx.publisher_account.data.authority != ctx.authority.key {
        Some(SamizdatError::Unauthorized)
    } else if ctx.campaign_account.data.status == CampaignStatus::Closed {
        Some(SamizdatError::CampaignNotActive)
    } else if ctx.authority.lamports + ctx.campaign_account.lamports > u64::MAX {
        Some(SamizdatError::ArithmeticOverflow)
    } else {
        None
    }
}

/// The records after a closing that was admitted: the campaign is closed
/// and holds nothing, and the caller holds what the campaign held.
pub open spec fn close_effect(ctx: CloseCampaign) -> CloseCampaign {
    CloseCampaign {
        campaign_account: Account {
            key: ctx.campaign_account.key,
            lamports: 0,
            data: CampaignAccount {
                status: CampaignStatus::Closed,
                ..ctx.campaign_account.data
            },
        },
        authority: Signer {
            lamports: (ctx.authority.lamports + ctx.campaign_account.lamports) as u64,
            ..ctx.authority
        },
        ..ctx
    }
}

/// Closes the campaign and returns its whole balance to the caller, the
/// reserve included: a closed campaign keeps nothing.
pub fn process_close_campaign(ctx: &mut CloseCampaign) -> (result: Result<(), SamizdatError>)
    ensures
        match close_rejection(*old(ctx)) {
            Some(error) => result == Err::<(), SamizdatError>(error) && *final(ctx) == *old(ctx),
            None => result is Ok && *final(ctx) == close_effect(*old(ctx)),
        },
        result is Ok ==> final(ctx).campaign_account.lamports + final(ctx).authority.lamports
            == old(ctx).campaign_account.lamports + old(ctx).authority.lamports,
        result is Ok ==> final(ctx).campaign_account.data.status == CampaignStatus::Closed,
        old(ctx).campaign_account.data@.well_formed()
            ==> final(ctx).campaign_account.data@.well_formed(),
{
    if ctx.campaign_account.data.publisher_account != ctx.publisher_account.key {
        return Err(SamizdatError::PublisherMismatch);
    }
    if ctx.publisher_account.data.authority != ctx.authority.key {
        return Err(SamizdatError::Unauthorized);
    }
    if ctx.campaign_account.data.status == CampaignStatus::Closed {
        return Err(SamizdatError::CampaignNotActive);
    }
    let (campaign_after, payee_after) = match pay_out(
        ctx.campaign_account.lamports,
        ctx.authority.lamports,
        ctx.campaign_account.lamports,
        0,
    ) {
        Ok(balances) => balances,
        Err(error) => {
            return Err(error);
        },
    };
    ctx.campaign_account.lamports = campaign_after;
    ctx.authority.lamports = payee_after;
    ctx.campaign_account.data.status = CampaignStatus::Closed;
    Ok(())
}

} // verus!
