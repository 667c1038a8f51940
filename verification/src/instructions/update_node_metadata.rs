//! Update the attributes of a node.

use vstd::prelude::*;
use crate::errors::SamizdatError;
use crate::instructions::update_campaign::updated;
use crate::state::account::{Account, Signer};
use crate::state::node_account::NodeAccount;
use crate::state::shared::{GeoLocation, NodeStatus};

verus! {

/// The records an update of a node touches.
#[derive(Clone, Debug, PartialEq, Eq)]
pub struct UpdateNodeMetadata {
    pub node_account: Account<NodeAccount>,
    /// The caller, who must control the node.
    pub authority: Signer,
}

/// The reason to refuse the update, if there is one.
pub open spec fn update_node_rejection(ctx: UpdateNodeMetadata) -> Option<SamizdatError> {
    if ctx.node_account.data.authority != ctx.authority.key {
        Some(SamizdatError::Unauthorized)
    } else {
        None
    }
}

/// The records after an update that was admitted: each attribute for which
/// a value was given holds that value, and every other one is as before.
pub open spec fn update_node_effect(
    ctx: UpdateNodeMetadata,
    location: Option<GeoLocation>,
    estimated_footfall: Option<u32>,
    blocked_tag_mask: Option<u64>,
    status: Option<NodeStatus>,
) -> UpdateNodeMetadata {
    UpdateNodeMetadata {
        node_account: Account {
            data: NodeAccount {
                location: updated(ctx.node_account.data.location, location),
                estimated_footfall: updated(
                    ctx.node_account.data.estimated_footfall,
                    estimated_footfall,
                ),
                blocked_tag_mask: updated(ctx.node_account.data.blocked_tag_mask, blocked_tag_mask),
                status: updated(ctx.node_account.data.status, status),
                ..ctx.node_account.data
            },
            ..ctx.node_account
        },
        ..ctx
    }
}

/// Applies the changes that are given to the node.
pub fn process_update_node_metadata(
    ctx: &mut UpdateNodeMetadata,
    location: Option<GeoLocation>,
    estimated_footfall: Option<u32>,
    blocked_tag_mask: Option<u64>,
    status: Option<NodeStatus>,
) -> (result: Result<(), SamizdatError>)
    ensures
        match update_node_rejection(*old(ctx)) {
            Some(error) => result == Err::<(), SamizdatError>(error) && *final(ctx) == *old(ctx),
            None => result is Ok && *final(ctx) == update_node_effect(
                *old(ctx),
                location,
                estimated_footfall,
                blocked_tag_mask,
                status,
            ),
        },
{
    if ctx.node_account.data.authority != ctx.authority.key {
        return Err(SamizdatError::Unauthorized);
    }
    if let Some(value) = location {
        ctx.node_account.data.location = value;
    }
    if let Some(value) = estimated_footfall {
        ctx.node_account.data.estimated_footfall = value;
    }
    if let Some(value) = blocked_tag_mask {
        ctx.node_account.data.blocked_tag_mask = value;
    }
    if let Some(value) = status {
        ctx.node_account.data.status = value;
    }
    Ok(())
}

} // verus!
