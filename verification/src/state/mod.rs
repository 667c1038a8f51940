//! The persisted records and the values they are made of.

pub mod account;
pub mod campaign_account;
pub mod claim_cooldown;
pub mod node_account;
pub mod play_record;
pub mod publisher_account;
pub mod shared;

pub use account::{Account, Signer};
pub use campaign_account::{
    are_valid_cids, is_valid_cid, valid_cid, valid_cids, CampaignAccount, CampaignView,
};
pub use claim_cooldown::ClaimCooldown;
pub use node_account::{NodeAccount, NodeView};
pub use play_record::{confirmation_deadline, PlayRecord};
pub use publisher_account::PublisherAccount;
pub use shared::{
    strings_view, CampaignStatus, GeoBounds, GeoLocation, NodeStatus, PlayStatus,
    PublisherStatus, Resolution, ScreenSize, TargetFilters, TargetFiltersView,
    MAX_CIDS, MAX_CID_LENGTH, MAX_ESTABLISHMENT_TYPES, MAX_ESTABLISHMENT_TYPE_LENGTH,
    MAX_LANDMARKS, MAX_LANDMARK_LENGTH, MAX_REQUIRED_LANDMARKS,
    MAX_REQUIRED_LANDMARK_LENGTH, MAX_SCREEN_SIZES, PLAY_TIMEOUT_SECONDS, TAG_ALCOHOL,
    TAG_BETTING, TAG_CRYPTO, TAG_NONE, TAG_NSFW, TAG_POLITICAL,
};
