//! Settlement core of a proof-of-play advertising protocol.
//!
//! Publishers escrow funds for display campaigns; display nodes claim the
//! right to show content and are paid a fixed bounty for each confirmed play.
//! Every operation is a function from the records it touches, given as plain
//! values, to their next state or an error that leaves them unchanged. The
//! time and the reserve of a balance are arguments: nothing here reads a
//! clock or a ledger.

pub mod address;
pub mod cooldown;
pub mod errors;
pub mod escrow;
pub mod instructions;
pub mod laws;
pub mod state;
pub mod targeting;

use vstd::prelude::*;
use crate::errors::SamizdatError;
use crate::instructions::{
    add_cids_effect, add_cids_rejection, claim_effect, claim_rejection, close_effect,
    close_rejection, confirm_effect, confirm_rejection, create_effect, create_rejection,
    fund_effect, fund_rejection, register_node_effect, register_publisher_effect,
    timeout_effect, timeout_rejection, update_effect, update_node_effect,
    update_node_rejection, update_rejection, AddCidsToCampaign, ClaimCampaign, CloseCampaign,
    ConfirmPlay, CreateCampaign, FundCampaign, RegisterNode, RegisterPublisher, TimeoutPlay,
    UpdateCampaign, UpdateNodeMetadata,
};
use crate::state::{
    strings_view, CampaignStatus, GeoLocation, NodeStatus, Resolution, ScreenSize,
    TargetFilters,
};

verus! {

/// Registers the caller as a publisher.
pub fn register_publisher(ctx: &mut RegisterPublisher, now: i64) -> (result: Result<
    (),
    SamizdatError,
>)
    ensures
        result is Ok,
        *final(ctx) == register_publisher_effect(*old(ctx), now),
{
    instructions::process_register_publisher(ctx, now)
}

/// Opens a campaign and escrows its budget.
pub fn create_campaign(
    ctx: &mut CreateCampaign,
    campaign_id: u64,
    cids: Vec<String>,
    bounty_per_play: u64,
    total_plays: u64,
    tag_mask: u64,
    target_filters: TargetFilters,
    claim_cooldown: i64,
    now: i64,
) -> (result: Result<(), SamizdatError>)
    ensures
        match create_rejection(
            *old(ctx),
            strings_view(cids@),
            bounty_per_play,
            total_plays,
            claim_cooldown,
        ) {
            Some(error) => result == Err::<(), SamizdatError>(error) && *final(ctx) == *old(ctx),
            None => result is Ok && *final(ctx) == create_effect(
                *old(ctx),
                campaign_id,
                cids,
                bounty_per_play,
                total_plays,
                tag_mask,
                target_filters,
                claim_cooldown,
                now,
            ),
        },
{
    instructions::process_create_campaign(
        ctx,
        campaign_id,
        cids,
        bounty_per_play,
        total_plays,
        tag_mask,
        target_filters,
        claim_cooldown,
        now,
    )
}

/// Adds funds to a campaign.
pub fn fund_campaign(ctx: &mut FundCampaign, amount: u64) -> (result: Result<(), SamizdatError>)
    ensures
        match fund_rejection(*old(ctx), amount) {
            Some(error) => result == Err::<(), SamizdatError>(error) && *final(ctx) == *old(ctx),
            None => result is Ok && *final(ctx) == fund_effect(*old(ctx), amount),
        },
{
    instructions::process_fund_campaign(ctx, amount)
}

/// Changes the tags, the filters or the status of a campaign.
pub fn update_campaign(
    ctx: &mut UpdateCampaign,
    tag_mask: Option<u64>,
    target_filters: Option<TargetFilters>,
    status: Option<CampaignStatus>,
) -> (result: Result<(), SamizdatError>)
    ensures
        match update_rejection(*old(ctx), status) {
            Some(error) => result == Err::<(), SamizdatError>(error) && *final(ctx) == *old(ctx),
            None => result is Ok && *final(ctx) == update_effect(
                *old(ctx),
                tag_mask,
                target_filters,
                status,
            ),
        },
{
    instructions::process_update_campaign(ctx, tag_mask, target_filters, status)
}

/// Appends content identifiers to a campaign.
pub fn add_cids_to_campaign(ctx: &mut AddCidsToCampaign, new_cids: Vec<String>) -> (result: Result<
    (),
    SamizdatError,
>)
    ensures
        match add_cids_rejection(*old(ctx), strings_view(new_cids@)) {
            Some(error) => result == Err::<(), SamizdatError>(error) && *final(ctx) == *old(ctx),
            None => {
                &&& result is Ok
                &&& final(ctx).campaign_account.data@ == add_cids_effect(
                    old(ctx).campaign_account.data@,
                    strings_view(new_cids@),
                )
                &&& final(ctx).campaign_account.key == old(ctx).campaign_account.key
                &&& final(ctx).campaign_account.lamports == old(ctx).campaign_account.lamports
                &&& final(ctx).publisher_account == old(ctx).publisher_account
                &&& final(ctx).authority == old(ctx).authority
            },
        },
{
    instructions::process_add_cids_to_campaign(ctx, new_cids)
}

/// Closes a campaign and returns its balance.
pub fn close_campaign(ctx: &mut CloseCampaign) -> (result: Result<(), SamizdatError>)
    ensures
        match close_rejection(*old(ctx)) {
            Some(error) => result == Err::<(), SamizdatError>(error) && *final(ctx) == *old(ctx),
            None => result is Ok && *final(ctx) == close_effect(*old(ctx)),
        },
{
    instructions::process_close_campaign(ctx)
}

/// Registers a node of the caller.
pub fn register_node(
    ctx: &mut RegisterNode,
    node_id: u64,
    location: GeoLocation,
    screen_size: ScreenSize,
    resolution: Resolution,
    landmarks: Vec<String>,
    blocked_tag_mask: u64,
    estimated_footfall: u32,
    establishment_type: String,
    now: i64,
) -> (result: Result<(), SamizdatError>)
    ensures
        result is Ok,
        *final(ctx) == register_node_effect(
            *old(ctx),
            node_id,
            location,
            screen_size,
            resolution,
            landmarks,
            blocked_tag_mask,
            estimated_footfall,
            establishment_type,
            now,
        ),
{
    instructions::process_register_node(
        ctx,
        node_id,
        location,
        screen_size,
        resolution,
        landmarks,
        blocked_tag_mask,
        estimated_footfall,
        establishment_type,
        now,
    )
}

/// Changes the attributes of a node.
pub fn update_node_metadata(
    ctx: &mut UpdateNodeMetadata,
    location: Option<GeoLocation>,
    estimated_footfall: Option<u32>,
    blocked_tag_mask: Option<u64>,
    status: Option<NodeStatus>,
) -> (result: Result<(), SamizdatError>)
    ensures
        match update_node_rejection(*old(ctx)) {
            Some(error) => result == Err::<(), SamizdatError>(error) && *final(ctx) == *old(ctx),
            None => result is Ok && *final(ctx) == update_node_effect(
                *old(ctx),
                location,
                estimated_footfall,
                blocked_tag_mask,
                status,
            ),
        },
{
    instructions::process_update_node_metadata(
        ctx,
        location,
        estimated_footfall,
        blocked_tag_mask,
        status,
    )
}

/// Reserves one play of a campaign for a node.
pub fn claim_campaign(
    ctx: &mut ClaimCampaign,
    cid_index: u8,
    claim_nonce: i64,
    rent_exempt_minimum: u64,
    now: i64,
) -> (result: Result<(), SamizdatError>)
    ensures
        match claim_rejection(*old(ctx), cid_index, rent_exempt_minimum, now) {
            Some(error) => result == Err::<(), SamizdatError>(error) && *final(ctx) == *old(ctx),
            None => result is Ok && *final(ctx) == claim_effect(
                *old(ctx),
                cid_index,
                claim_nonce,
                now,
            ),
        },
{
    instructions::process_claim_campaign(ctx, cid_index, claim_nonce, rent_exempt_minimum, now)
}

/// Settles a claimed play and pays the node.
pub fn confirm_play(ctx: &mut ConfirmPlay, rent_exempt_minimum: u64, now: i64) -> (result: Result<
    (),
    SamizdatError,
>)
    ensures
        match confirm_rejection(*old(ctx), rent_exempt_minimum, now) {
            Some(error) => result == Err::<(), SamizdatError>(error) && *final(ctx) == *old(ctx),
            None => result is Ok && *final(ctx) == confirm_effect(*old(ctx), now),
        },
{
    instructions::process_confirm_play(ctx, rent_exempt_minimum, now)
}

/// Releases a claim whose confirmation window has closed. Anyone may call it.
pub fn timeout_play(ctx: &mut TimeoutPlay, now: i64) -> (result: Result<(), SamizdatError>)
    ensures
        match timeout_rejection(*old(ctx), now) {
            Some(error) => result == Err::<(), SamizdatError>(error) && *final(ctx) == *old(ctx),
            None => result is Ok && *final(ctx) == timeout_effect(*old(ctx)),
        },
{
    instructions::process_timeout_play(ctx, now)
}

} // verus!
