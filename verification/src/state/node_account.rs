//! The node record.

use vstd::prelude::*;
use crate::address::Address;
use crate::state::shared::{strings_view, GeoLocation, NodeStatus, Resolution, ScreenSize};

verus! {

/// A display endpoint that shows campaign content and earns bounties.
#[derive(Clone, Debug, PartialEq, Eq)]
pub struct NodeAccount {
    pub authority: Address,
    pub node_id: u64,
    pub location: GeoLocation,
    pub screen_size: ScreenSize,
    pub resolution: Resolution,
    pub landmarks: Vec<String>,
    pub blocked_tag_mask: u64,
    pub estimated_footfall: u32,
    pub establishment_type: String,
    pub total_plays: u64,
    pub total_earnings: u64,
    pub registered_at: i64,
    pub status: NodeStatus,
    pub bump: u8,
}

/// The node as mathematical values.
pub struct NodeView {
    pub authority: Address,
    pub node_id: u64,
    pub location: GeoLocation,
    pub screen_size: ScreenSize,
    pub resolution: Resolution,
    pub landmarks: Seq<Seq<char>>,
    pub blocked_tag_mask: u64,
    pub estimated_footfall: u32,
    pub establishment_type: Seq<char>,
    pub total_plays: u64,
    pub total_earnings: u64,
    pub registered_at: i64,
    pub status: NodeStatus,
    pub bump: u8,
}

impl View for NodeAccount {
    type V = NodeView;

    open spec fn view(&self) -> NodeView {
        NodeView {
            authority: self.authority,
            node_id: self.node_id,
            location: self.location,
            screen_size: self.screen_size,
            resolution: self.resolution,
            landmarks: strings_view(self.landmarks@),
            blocked_tag_mask: self.blocked_tag_mask,
            estimated_footfall: self.estimated_footfall,
            establishment_type: self.establishment_type@,
            total_plays: self.total_plays,
            total_earnings: self.total_earnings,
            registered_at: self.registered_at,
            status: self.status,
            bump: self.bump,
        }
    }
}

} // verus!
