//! The operations, one file each.

pub mod add_cids_to_campaign;
pub mod claim_campaign;
pub mod close_campaign;
pub mod confirm_play;
pub mod create_campaign;
pub mod fund_campaign;
pub mod register_node;
pub mod register_publisher;
pub mod timeout_play;
pub mod update_campaign;
pub mod update_node_metadata;

pub use add_cids_to_campaign::{
    add_cids_effect, add_cids_rejection, process_add_cids_to_campaign, AddCidsToCampaign,
};
pub use claim_campaign::{
    claim_effect, claim_rejection, claimed_record, process_claim_campaign, ClaimCampaign,
    ClaimCampaignBumps,
};
pub use close_campaign::{close_effect, close_rejection, process_close_campaign, CloseCampaign};
pub use confirm_play::{
    confirm_effect, confirm_link_rejection, confirm_overflows, confirm_rejection,
    process_confirm_play, ConfirmPlay,
};
pub use create_campaign::{
    checked_required_funding, create_effect, create_rejection, process_create_campaign,
    required_funding, CreateCampaign, CreateCampaignBumps,
};
pub use fund_campaign::{
    fund_effect, fund_rejection, process_fund_campaign, status_after_funding, FundCampaign,
};
pub use register_node::{
    process_register_node, register_node_effect, RegisterNode, RegisterNodeBumps,
};
pub use register_publisher::{
    process_register_publisher, register_publisher_effect, RegisterPublisher,
    RegisterPublisherBumps,
};
pub use timeout_play::{process_timeout_play, timeout_effect, timeout_rejection, TimeoutPlay};
pub use update_campaign::{
    process_update_campaign, update_effect, update_rejection, updated, UpdateCampaign,
};
pub use update_node_metadata::{
    process_update_node_metadata, update_node_effect, update_node_rejection, UpdateNodeMetadata,
};
