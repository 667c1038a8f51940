//! Limits, statuses and the small value types shared by the records.

use vstd::prelude::*;

verus! {

/// No content category.
pub const TAG_NONE: u64 = 0;

/// Content category: cryptocurrency.
pub const TAG_CRYPTO: u64 = 0x01;

/// Content category: betting.
pub const TAG_BETTING: u64 = 0x02;

/// Content category: adult content.
pub const TAG_NSFW: u64 = 0x04;

/// Content category: political content.
pub const TAG_POLITICAL: u64 = 0x08;

/// Content category: alcohol.
pub const TAG_ALCOHOL: u64 = 0x10;

/// Seconds a claimed play may wait for its confirmation.
pub const PLAY_TIMEOUT_SECONDS: i64 = 300;

/// Most content identifiers that a campaign holds.
pub const MAX_CIDS: usize = 10;

/// Most characters in a content identifier.
pub const MAX_CID_LENGTH: usize = 200;

/// Landmark tags that a stored node has room for.
pub const MAX_LANDMARKS: usize = 5;

/// Length of a landmark tag that a stored node has room for.
pub const MAX_LANDMARK_LENGTH: usize = 32;

/// Screen sizes that stored filters have room for.
pub const MAX_SCREEN_SIZES: usize = 4;

/// Establishment types that stored filters have room for.
pub const MAX_ESTABLISHMENT_TYPES: usize = 5;

/// Length of an establishment type that a stored record has room for.
pub const MAX_ESTABLISHMENT_TYPE_LENGTH: usize = 32;

/// Required landmarks that stored filters have room for.
pub const MAX_REQUIRED_LANDMARKS: usize = 5;

/// Length of a required landmark that stored filters have room for.
pub const MAX_REQUIRED_LANDMARK_LENGTH: usize = 32;

/// Whether a publisher may open campaigns.
#[derive(Clone, Copy, Debug, PartialEq, Eq, Structural)]
pub enum PublisherStatus {
    Active,
    Suspended,
}

/// Where a campaign stands. Only an active campaign is served; a closed
/// one is never changed again.
#[derive(Clone, Copy, Debug, PartialEq, Eq, Structural)]
pub enum CampaignStatus {
    Active,
    Paused,
    /// Set by the publisher; funding turns it into `Paused`.
    Depleted,
    /// Reached by closing the campaign, and by nothing else.
    Closed,
}

/// Whether a node may claim plays.
#[derive(Clone, Copy, Debug, PartialEq, Eq, Structural)]
pub enum NodeStatus {
    Active,
    Offline,
    Suspended,
}

/// The state of a play record: claimed at first, then paid or timed out
/// for good.
#[derive(Clone, Copy, Debug, PartialEq, Eq, Structural)]
pub enum PlayStatus {
    Claimed,
    Paid,
    TimedOut,
}

/// The size class of a node's screen.
#[derive(Clone, Copy, Debug, PartialEq, Eq, Structural)]
pub enum ScreenSize {
    Small,
    Medium,
    Large,
    XLarge,
}

/// A position in fixed point: degrees times ten million.
#[derive(Clone, Copy, Debug, PartialEq, Eq, Structural)]
pub struct GeoLocation {
    pub latitude: i64,
    pub longitude: i64,
}

/// A display resolution in pixels.
#[derive(Clone, Copy, Debug, PartialEq, Eq, Structural)]
pub struct Resolution {
    pub width: u32,
    pub height: u32,
}

/// A bounding box in the fixed point of [`GeoLocation`], both ends included.
#[derive(Clone, Copy, Debug, PartialEq, Eq, Structural)]
pub struct GeoBounds {
    pub min_lat: i64,
    pub max_lat: i64,
    pub min_lon: i64,
    pub max_lon: i64,
}

impl GeoBounds {
    /// Whether `location` lies inside the box on both axes.
    pub open spec fn spec_contains(&self, location: GeoLocation) -> bool {
        &&& self.min_lat <= location.latitude <= self.max_lat
        &&& self.min_lon <= location.longitude <= self.max_lon
    }

    #[verifier::when_used_as_spec(spec_contains)]
    pub fn contains(&self, location: GeoLocation) -> (inside: bool)
        ensures
            inside == self.spec_contains(location),
    {
        location.latitude >= self.min_lat && location.latitude <= self.max_lat
            && location.longitude >= self.min_lon && location.longitude <= self.max_lon
    }
}

/// The view of a list of strings: the characters of each.
pub open spec fn strings_view(strings: Seq<String>) -> Seq<Seq<char>> {
    Seq::new(strings.len(), |i: int| strings[i]@)
}

/// What a campaign asks of the nodes that may show it. Every constraint that
/// is present must hold; an absent bound or an empty list asks nothing.
#[derive(Clone, Debug, PartialEq, Eq)]
pub struct TargetFilters {
    pub min_footfall: Option<u32>,
    pub max_footfall: Option<u32>,
    pub screen_sizes: Vec<ScreenSize>,
    pub geo_bounds: Option<GeoBounds>,
    pub establishment_types: Vec<String>,
    pub required_landmarks: Vec<String>,
}

/// The filters as mathematical values.
pub struct TargetFiltersView {
    pub min_footfall: Option<u32>,
    pub max_footfall: Option<u32>,
    pub screen_sizes: Seq<ScreenSize>,
    pub geo_bounds: Option<GeoBounds>,
    pub establishment_types: Seq<Seq<char>>,
    pub required_landmarks: Seq<Seq<char>>,
}

impl View for TargetFilters {
    type V = TargetFiltersView;

    open spec fn view(&self) -> TargetFiltersView {
        TargetFiltersView {
            min_footfall: self.min_footfall,
            max_footfall: self.max_footfall,
            screen_sizes: self.screen_sizes@,
            geo_bounds: self.geo_bounds,
            establishment_types: strings_view(self.establishment_types@),
            required_landmarks: strings_view(self.required_landmarks@),
        }
    }
}

} // verus!
