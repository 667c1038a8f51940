//! Register a node.

use vstd::prelude::*;
use crate::errors::SamizdatError;
use crate::state::account::{Account, Signer};
use crate::state::node_account::NodeAccount;
use crate::state::shared::{GeoLocation, NodeStatus, Resolution, ScreenSize};

verus! {

/// The bump seed of the record that a registration writes.
#[derive(Clone, Copy, Debug, PartialEq, Eq)]
pub struct RegisterNodeBumps {
    pub node_account: u8,
}

/// The records the registration of a node touches.
#[derive(Clone, Debug, PartialEq, Eq)]
pub struct RegisterNode {
    /// The slot that receives the new node.
    pub node_account: Account<NodeAccount>,
    /// The caller, who will control the node.
    pub authority: Signer,
    pub bumps: RegisterNodeBumps,
}

/// The records after the registration at `now`: the slot holds an active
/// node of the caller with the attributes given and nothing earned yet.
pub open spec fn register_node_effect(
    ctx: RegisterNode,
    node_id: u64,
    location: GeoLocation,
    screen_size: ScreenSize,
    resolution: Resolution,
    landmarks: Vec<String>,
    blocked_tag_mask: u64,
    estimated_footfall: u32,
    establishment_type: String,
    now: i64,
) -> RegisterNode {
    RegisterNode {
        node_account: Account {
            data: NodeAccount {
                authority: ctx.authority.key,
                node_id,
                location,
                screen_size,
                resolution,
                landmarks,
                blocked_tag_mask,
                estimated_footfall,
                establishment_type,
                total_plays: 0,
                total_earnings: 0,
                registered_at: now,
                status: NodeStatus::Active,
                bump: ctx.bumps.node_account,
            },
            ..ctx.node_account
        },
        ..ctx
    }
}

/// Registers a node of the caller at the time `now`. It never fails.
pub fn process_register_node(
    ctx: &mut RegisterNode,
    node_id: u64,
    location: GeoLocation,
    screen_size: ScreenSize,
    resolution: Resolution,
    landmarks: Vec<String>,
    blocked_tag_mask: u64,
    estimated_footfall: u32,
    establishment_type: String,
    now: i64,
) -> (result: Result<(), SamizdatError>)
    ensures
        result is Ok,
        *final(ctx) == register_node_effect(
            *old(ctx),
            node_id,
            location,
            screen_size,
            resolution,
            landmarks,
            blocked_tag_mask,
            estimated_footfall,
            establishment_type,
            now,
        ),
{
    ctx.node_account.data = NodeAccount {
        authority: ctx.authority.key,
        node_id,
        location,
        screen_size,
        resolution,
        landmarks,
        blocked_tag_mask,
        estimated_footfall,
        establishment_type,
        total_plays: 0,
        total_earnings: 0,
        registered_at: now,
        status: NodeStatus::Active,
        bump: ctx.bumps.node_account,
    };
    Ok(())
}

} // verus!
