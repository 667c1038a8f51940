//! The targeting evaluator: whether a node is eligible for a campaign.

use vstd::prelude::*;
use crate::state::node_account::{NodeAccount, NodeView};
use crate::state::shared::{strings_view, ScreenSize, TargetFilters, TargetFiltersView};

verus! {

/// Whether a campaign's content tags and a node's blocked tags share a bit.
pub open spec fn tags_blocked(tag_mask: u64, blocked_tag_mask: u64) -> bool {
    tag_mask & blocked_tag_mask != 0
}

/// Whether the node refuses the campaign's content.
pub fn content_blocked(tag_mask: u64, blocked_tag_mask: u64) -> (blocked: bool)
    ensures
        blocked == tags_blocked(tag_mask, blocked_tag_mask),
{
    tag_mask & blocked_tag_mask != 0
}

/// Whether the node's footfall is inside the bounds that are present.
pub open spec fn footfall_matches(node: NodeView, filters: TargetFiltersView) -> bool {
    &&& filters.min_footfall matches Some(min) ==> node.estimated_footfall >= min
    &&& filters.max_footfall matches Some(max) ==> node.estimated_footfall <= max
}

/// Whether the node's screen size is one of those asked for, if any is.
pub open spec fn screen_size_matches(node: NodeView, filters: TargetFiltersView) -> bool {
    filters.screen_sizes.len() > 0 ==> filters.screen_sizes.contains(node.screen_size)
}

/// Whether the node lies inside the bounding box, if there is one.
pub open spec fn location_matches(node: NodeView, filters: TargetFiltersView) -> bool {
    filters.geo_bounds matches Some(bounds) ==> bounds.spec_contains(node.location)
}

/// Whether the node's establishment type is one of those asked for, if any is.
pub open spec fn establishment_matches(node: NodeView, filters: TargetFiltersView) -> bool {
    filters.establishment_types.len() > 0 ==> filters.establishment_types.contains(
        node.establishment_type,
    )
}

/// Whether every string of `wanted` occurs in `have`.
pub open spec fn contains_all(have: Seq<Seq<char>>, wanted: Seq<Seq<char>>) -> bool {
    forall|i: int| 0 <= i < wanted.len() ==> have.contains(#[trigger] wanted[i])
}

/// Whether the node carries every required landmark.
pub open spec fn landmarks_match(node: NodeView, filters: TargetFiltersView) -> bool {
    contains_all(node.landmarks, filters.required_landmarks)
}

/// Whether the node satisfies every constraint of the filters.
pub open spec fn spec_matches(node: NodeView, filters: TargetFiltersView) -> bool {
    &&& footfall_matches(node, filters)
    &&& screen_size_matches(node, filters)
    &&& location_matches(node, filters)
    &&& establishment_matches(node, filters)
    &&& landmarks_match(node, filters)
}

/// Filters without a bound, a box or a list admit every node.
pub proof fn lemma_empty_filters_admit_every_node(node: NodeView, filters: TargetFiltersView)
    requires
        filters.min_footfall is None,
        filters.max_footfall is None,
        filters.screen_sizes.len() == 0,
        filters.geo_bounds is None,
        filters.establishment_types.len() == 0,
        filters.required_landmarks.len() == 0,
    ensures
        spec_matches(node, filters),
{
}

/// Whether `sizes` holds `size`.
pub fn contains_screen_size(sizes: &Vec<ScreenSize>, size: ScreenSize) -> (found: bool)
    ensures
        found == sizes@.contains(size),
{
    let mut i: usize = 0;
    while i < sizes.len()
        invariant
            i <= sizes.len(),
            forall|j: int| 0 <= j < i ==> sizes@[j] != size,
        decreases sizes.len() - i,
    {
        if sizes[i] == size {
            return true;
        }
        i += 1;
    }
    false
}

/// Whether `strings` holds a string with the characters of `wanted`.
pub fn contains_string(strings: &Vec<String>, wanted: &String) -> (found: bool)
    ensures
        found == strings_view(strings@).contains(wanted@),
{
    let ghost views = strings_view(strings@);
    let mut i: usize = 0;
    while i < strings.len()
        invariant
            i <= strings.len(),
            views == strings_view(strings@),
            forall|j: int| 0 <= j < i ==> views[j] != wanted@,
        decreases strings.len() - i,
    {
        if strings[i] == *wanted {
            assert(views[i as int] == wanted@);
            return true;
        }
        i += 1;
    }
    false
}

/// Whether `available` holds every string of `required`.
pub fn contains_all_strings(available: &Vec<String>, required: &Vec<String>) -> (all: bool)
    ensures
        all == contains_all(strings_view(available@), strings_view(required@)),
{
    let ghost wanted = strings_view(required@);
    let ghost have = strings_view(available@);
    let mut i: usize = 0;
    while i < required.len()
        invariant
            i <= required.len(),
            wanted == strings_view(required@),
            have == strings_view(available@),
            forall|j: int| 0 <= j < i ==> have.contains(#[trigger] wanted[j]),
        decreases required.len() - i,
    {
        if !contains_string(available, &required[i]) {
            assert(!have.contains(wanted[i as int]));
            return false;
        }
        i += 1;
    }
    true
}

/// Evaluates the target filters against a node.
pub fn matches(node: &NodeAccount, filters: &TargetFilters) -> (eligible: bool)
    ensures
        eligible == spec_matches(node@, filters@),
{
    if let Some(min) = filters.min_footfall {
        if node.estimated_footfall < min {
            return false;
        }
    }
    if let Some(max) = filters.max_footfall {
        if node.estimated_footfall > max {
            return false;
        }
    }
    if filters.screen_sizes.len() > 0 {
        if !contains_screen_size(&filters.screen_sizes, node.screen_size) {
            return false;
        }
    }
    if let Some(bounds) = filters.geo_bounds {
        if !bounds.contains(node.location) {
            return false;
        }
    }
    if filters.establishment_types.len() > 0 {
        if !contains_string(&filters.establishment_types, &node.establishment_type) {
            return false;
        }
    }
    contains_all_strings(&node.landmarks, &filters.required_landmarks)
}

} // verus!
