//! Create: a publisher opens a campaign and escrows its whole budget.

use vstd::prelude::*;
use crate::errors::SamizdatError;
use crate::escrow::{deposit, spec_deposit};
use crate::state::account::{Account, Signer};
use crate::state::campaign_account::{are_valid_cids, valid_cids, CampaignAccount};
use crate::state::publisher_account::PublisherAccount;
use crate::state::shared::{
    strings_view, CampaignStatus, PublisherStatus, TargetFilters, MAX_CIDS,
};

verus! {

/// The bump seed of the record that a creation writes.
#[derive(Clone, Copy, Debug, PartialEq, Eq)]
pub struct CreateCampaignBumps {
    pub campaign_account: u8,
}

/// The records a creation touches.
#[derive(Clone, Debug, PartialEq, Eq)]
pub struct CreateCampaign {
    /// The slot that receives the new campaign.
    pub campaign_account: Account<CampaignAccount>,
    pub publisher_account: Account<PublisherAccount>,
    /// The caller, who must control the publisher and pays the budget.
    pub authority: Signer,
    pub bumps: CreateCampaignBumps,
}

/// The budget of a campaign: the bounty of every play the campaign offers.
pub open spec fn required_funding(bounty_per_play: u64, total_plays: u64) -> int {
    bounty_per_play * total_plays
}

/// The budget of a campaign as a balance, where it fits the range of one.
pub fn checked_required_funding(bounty_per_play: u64, total_plays: u64) -> (funding: Option<u64>)
    ensures
        funding == (if required_funding(bounty_per_play, total_plays) > u64::MAX {
            None::<u64>
        } else {
            Some(required_funding(bounty_per_play, total_plays) as u64)
        }),
{
    bounty_per_play.checked_mul(total_plays)
}

/// The first reason to refuse the creation, if there is one.
pub open spec fn create_rejection(
    ctx: CreateCampaign,
    cids: Seq<Seq<char>>,
    bounty_per_play: u64,
    total_plays: u64,
    claim_cooldown: i64,
) -> Option<SamizdatError> {
    let funding = required_funding(bounty_per_play, total_plays);
    if ctx.publisher_account.data.authority != ctx.authority.key {
        Some(SamizdatError::Unauthorized)
    } else if ctx.publisher_account.data.status != PublisherStatus::Active {
        Some(SamizdatError::PublisherNotActive)
    } else if cids.len() == 0 || cids.len() > MAX_CIDS {
        Some(SamizdatError::TooManyCids)
    } else if !valid_cids(cids) {
        Some(SamizdatError::InvalidCid)
    } else if bounty_per_play == 0 {
        Some(SamizdatError::InvalidBounty)
    } else if total_plays == 0 {
        Some(SamizdatError::InvalidPlays)
    } else if claim_cooldown < 0 {
        Some(SamizdatError::InvalidAmount)
    } else if funding > u64::MAX {
        Some(SamizdatError::ArithmeticOverflow)
    } else {
        match spec_deposit(ctx.authority.lamports, ctx.campaign_account.lamports, funding as u64) {
            Err(error) => Some(error),
            Ok(_) => if ctx.publisher_account.data.total_campaigns == u64::MAX {
                Some(SamizdatError::ArithmeticOverflow)
            } else {
                None
            },
        }
    }
}

/// The records after a creation that was admitted at `now`: the slot holds
/// the new campaign, active, with all its plays remaining; the budget moved
/// from the caller to the campaign; the publisher counts one campaign more.
pub open spec fn create_effect(
    ctx: CreateCampaign,
    campaign_id: u64,
    cids: Vec<String>,
    bounty_per_play: u64,
    total_plays: u64,
    tag_mask: u64,
    target_filters: TargetFilters,
    claim_cooldown: i64,
    now: i64,
) -> CreateCampaign {
    let funding = required_funding(bounty_per_play, total_plays);
    CreateCampaign {
        campaign_account: Account {
            key: ctx.campaign_account.key,
            lamports: (ctx.campaign_account.lamports + funding) as u64,
            data: CampaignAccount {
                publisher_account: ctx.publisher_account.key,
                campaign_id,
                cids,
                bounty_per_play,
                plays_remaining: total_plays,
                plays_completed: 0,
                tag_mask,
                target_filters,
                status: CampaignStatus::Active,
                claim_cooldown,
                created_at: now,
                bump: ctx.bumps.campaign_account,
            },
        },
        publisher_account: Account {
            data: PublisherAccount {
                total_campaigns: (ctx.publisher_account.data.total_campaigns + 1) as u64,
                ..ctx.publisher_account.data
            },
            ..ctx.publisher_account
        },
        authority: Signer { lamports: (ctx.authority.lamports - funding) as u64, ..ctx.authority },
        bumps: ctx.bumps,
    }
}

/// Opens a campaign at the time `now` and moves its budget into escrow.
pub fn process_create_campaign(
    ctx: &mut CreateCampaign,
    campaign_id: u64,
    cids: Vec<String>,
    bounty_per_play: u64,
    total_plays: u64,
    tag_mask: u64,
    target_filters: TargetFilters,
    claim_cooldown: i64,
    now: i64,
) -> (result: Result<(), SamizdatError>)
    ensures
        match create_rejection(
            *old(ctx),
            strings_view(cids@),
            bounty_per_play,
            total_plays,
            claim_cooldown,
        ) {
            Some(error) => result == Err::<(), SamizdatError>(error) && *final(ctx) == *old(ctx),
            None => result is Ok && *final(ctx) == create_effect(
                *old(ctx),
                campaign_id,
                cids,
                bounty_per_play,
                total_plays,
                tag_mask,
                target_filters,
                claim_cooldown,
                now,
            ),
        },
        result is Ok ==> final(ctx).campaign_account.data@.well_formed(),
        result is Ok ==> final(ctx).campaign_account.lamports + final(ctx).authority.lamports
            == old(ctx).campaign_account.lamports + old(ctx).authority.lamports,
{
    if ctx.publisher_account.data.authority != ctx.authority.key {
        return Err(SamizdatError::Unauthorized);
    }
    if ctx.publisher_account.data.status != PublisherStatus::Active {
        return Err(SamizdatError::PublisherNotActive);
    }
    if cids.len() == 0 || cids.len() > MAX_CIDS {
        return Err(SamizdatError::TooManyCids);
    }
    if !are_valid_cids(&cids) {
        return Err(SamizdatError::InvalidCid);
    }
    if bounty_per_play == 0 {
        return Err(SamizdatError::InvalidBounty);
    }
    if total_plays == 0 {
        return Err(SamizdatError::InvalidPlays);
    }
    if claim_cooldown < 0 {
        return Err(SamizdatError::InvalidAmount);
    }
    let funding = match checked_required_funding(bounty_per_play, total_plays) {
        Some(funding) => funding,
        None => {
            return Err(SamizdatError::ArithmeticOverflow);
        },
    };
    let (payer_after, campaign_after) = match deposit(
        ctx.authority.lamports,
        ctx.campaign_account.lamports,
        funding,
    ) {
        Ok(balances) => balances,
        Err(error) => {
            return Err(error);
        },
    };
    let total_campaigns = match ctx.publisher_account.data.total_campaigns.checked_add(1) {
        Some(total) => total,
        None => {
            return Err(SamizdatError::ArithmeticOverflow);
        },
    };
    ctx.authority.lamports = payer_after;
    ctx.campaign_account.lamports = campaign_after;
    ctx.campaign_account.data = CampaignAccount {
        publisher_account: ctx.publisher_account.key,
        campaign_id,
        cids,
        bounty_per_play,
        plays_remaining: total_plays,
        plays_completed: 0,
        tag_mask,
        target_filters,
        status: CampaignStatus::Active,
        claim_cooldown,
        created_at: now,
        bump: ctx.bumps.campaign_account,
    };
    ctx.publisher_account.data.total_campaigns = total_campaigns;
    Ok(())
}

} // verus!
