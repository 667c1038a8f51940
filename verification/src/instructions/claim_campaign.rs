//! Claim: a node reserves one play of a campaign.

use vstd::prelude::*;
use crate::cooldown::{cooldown_elapsed, cooldown_satisfied};
use crate::errors::SamizdatError;
use crate::escrow::{spec_spendable_balance, spendable_balance};
use crate::state::account::{Account, Signer};
use crate::state::campaign_account::CampaignAccount;
use crate::state::claim_cooldown::ClaimCooldown;
use crate::state::node_account::NodeAccount;
use crate::state::play_record::PlayRecord;
use crate::state::shared::{CampaignStatus, NodeStatus, PlayStatus};
use crate::targeting::{content_blocked, spec_matches, tags_blocked};

verus! {

/// The bump seeds of the records that a claim writes.
#[derive(Clone, Copy, Debug, PartialEq, Eq)]
pub struct ClaimCampaignBumps {
    pub play_record: u8,
    pub claim_cooldown: u8,
}

/// The records a claim touches.
#[derive(Clone, Debug, PartialEq, Eq)]
pub struct ClaimCampaign {
    /// The slot that receives the new play record.
    pub play_record: Account<PlayRecord>,
    /// The cooldown record of this campaign and this node.
    pub claim_cooldown: Account<ClaimCooldown>,
    pub campaign_account: Account<CampaignAccount>,
    pub node_account: Account<NodeAccount>,
    /// The caller, who must control the node.
    pub authority: Signer,
    pub bumps: ClaimCampaignBumps,
}

/// The first reason to refuse the claim, if there is one.
pub open spec fn claim_rejection(
    ctx: ClaimCampaign,
    cid_index: u8,
    rent_exempt_minimum: u64,
    now: i64,
) -> Option<SamizdatError> {
    let campaign = ctx.campaign_account.data@;
    let node = ctx.node_account.data@;
    if node.authority != ctx.authority.key {
        Some(SamizdatError::Unauthorized)
    } else if campaign.status != CampaignStatus::Active {
        Some(SamizdatError::CampaignNotActive)
    } else if node.status != NodeStatus::Active {
        Some(SamizdatError::NodeNotActive)
    } else if campaign.plays_remaining == 0 {
        Some(SamizdatError::NoPlaysRemaining)
    } else if cid_index >= campaign.cids.len() {
        Some(SamizdatError::InvalidCidIndex)
    } else if tags_blocked(campaign.tag_mask, node.blocked_tag_mask) {
        Some(SamizdatError::ContentFilterViolation)
    } else if !spec_matches(node, campaign.target_filters) {
        Some(SamizdatError::TargetMismatch)
    } else if spec_spendable_balance(ctx.campaign_account.lamports, rent_exempt_minimum)
        < campaign.bounty_per_play {
        Some(SamizdatError::InsufficientFunds)
    } else if !cooldown_elapsed(
        ctx.claim_cooldown.data.last_claimed_at,
        campaign.claim_cooldown,
        now,
    ) {
        Some(SamizdatError::CooldownNotExpired)
    } else {
        None
    }
}

/// The play record that a claim at `now` creates.
pub open spec fn claimed_record(ctx: ClaimCampaign, cid_index: u8, claim_nonce: i64, now: i64)
    -> PlayRecord {
    PlayRecord {
        campaign_account: ctx.campaign_account.key,
        node_account: ctx.node_account.key,
        nonce: claim_nonce,
        claimed_at: now,
        confirmed_at: 0,
        cid_index,
        payment_amount: 0,
        status: PlayStatus::Claimed,
        bump: ctx.bumps.play_record,
    }
}

/// The records after a claim that was admitted at `now`: one play less
/// remains, the cooldown record holds `now`, and the slot holds the new
/// play record. Nothing else changes.
pub open spec fn claim_effect(ctx: ClaimCampaign, cid_index: u8, claim_nonce: i64, now: i64)
    -> ClaimCampaign {
    ClaimCampaign {
        play_record: Account {
            data: claimed_record(ctx, cid_index, claim_nonce, now),
            ..ctx.play_record
        },
        claim_cooldown: Account {
            data: ClaimCooldown {
                campaign: ctx.campaign_account.key,
                node: ctx.node_account.key,
                last_claimed_at: now,
                bump: ctx.bumps.claim_cooldown,
            },
            ..ctx.claim_cooldown
        },
        campaign_account: Account {
            data: CampaignAccount {
                plays_remaining: (ctx.campaign_account.data.plays_remaining - 1) as u64,
                ..ctx.campaign_account.data
            },
            ..ctx.campaign_account
        },
        ..ctx
    }
}

/// Reserves one play of the campaign for the node, at the time `now` and
/// with `rent_exempt_minimum` as the reserve of the campaign's balance.
pub fn process_claim_campaign(
    ctx: &mut ClaimCampaign,
    cid_index: u8,
    claim_nonce: i64,
    rent_exempt_minimum: u64,
    now: i64,
) -> (result: Result<(), SamizdatError>)
    ensures
        match claim_rejection(*old(ctx), cid_index, rent_exempt_minimum, now) {
            Some(error) => result == Err::<(), SamizdatError>(error) && *final(ctx) == *old(ctx),
            None => result is Ok && *final(ctx) == claim_effect(
                *old(ctx),
                cid_index,
                claim_nonce,
                now,
            ),
        },
        old(ctx).campaign_account.data.plays_remaining == 0 ==> result is Err,
        old(ctx).node_account.data.authority == old(ctx).authority.key
            && old(ctx).campaign_account.data.status == CampaignStatus::Active
            && old(ctx).node_account.data.status == NodeStatus::Active
            && old(ctx).campaign_account.data.plays_remaining == 0 ==> result == Err::<
            (),
            SamizdatError,
        >(SamizdatError::NoPlaysRemaining),
        old(ctx).node_account.data.authority == old(ctx).authority.key
            && old(ctx).campaign_account.data.status != CampaignStatus::Active ==> result == Err::<
            (),
            SamizdatError,
        >(SamizdatError::CampaignNotActive),
        tags_blocked(
            old(ctx).campaign_account.data.tag_mask,
            old(ctx).node_account.data.blocked_tag_mask,
        ) ==> result is Err,
        result is Ok ==> final(ctx).campaign_account.data.plays_remaining + 1
            == old(ctx).campaign_account.data.plays_remaining,
        result is Ok ==> spec_spendable_balance(
            old(ctx).campaign_account.lamports,
            rent_exempt_minimum,
        ) >= old(ctx).campaign_account.data.bounty_per_play,
        old(ctx).campaign_account.data@.well_formed()
            ==> final(ctx).campaign_account.data@.well_formed(),
{
    if ctx.node_account.data.authority != ctx.authority.key {
        return Err(SamizdatError::Unauthorized);
    }
    if ctx.campaign_account.data.status != CampaignStatus::Active {
        return Err(SamizdatError::CampaignNotActive);
    }
    if ctx.node_account.data.status != NodeStatus::Active {
        return Err(SamizdatError::NodeNotActive);
    }
    if ctx.campaign_account.data.plays_remaining == 0 {
        return Err(SamizdatError::NoPlaysRemaining);
    }
    if cid_index as usize >= ctx.campaign_account.data.cids.len() {
        return Err(SamizdatError::InvalidCidIndex);
    }
    if content_blocked(ctx.campaign_account.data.tag_mask, ctx.node_account.data.blocked_tag_mask) {
        return Err(SamizdatError::ContentFilterViolation);
    }
    if !crate::targeting::matches(&ctx.node_account.data, &ctx.campaign_account.data.target_filters) {
        return Err(SamizdatError::TargetMismatch);
    }
    if spendable_balance(ctx.campaign_account.lamports, rent_exempt_minimum)
        < ctx.campaign_account.data.bounty_per_play {
        return Err(SamizdatError::InsufficientFunds);
    }
    if !cooldown_satisfied(
        &ctx.claim_cooldown.data,
        ctx.campaign_account.data.claim_cooldown,
        now,
    ) {
        return Err(SamizdatError::CooldownNotExpired);
    }
    let campaign_key = ctx.campaign_account.key;
    let node_key = ctx.node_account.key;

    ctx.campaign_account.data.plays_remaining = ctx.campaign_account.data.plays_remaining - 1;
    ctx.claim_cooldown.data = ClaimCooldown {
        campaign: campaign_key,
        node: node_key,
        last_claimed_at: now,
        bump: ctx.bumps.claim_cooldown,
    };
    ctx.play_record.data = PlayRecord {
        campaign_account: campaign_key,
        node_account: node_key,
        nonce: claim_nonce,
        claimed_at: now,
        confirmed_at: 0,
        cid_index,
        payment_amount: 0,
        status: PlayStatus::Claimed,
        bump: ctx.bumps.play_record,
    };
    Ok(())
}

} // verus!
