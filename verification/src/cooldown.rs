//! The cooldown tracker: how soon a node may claim the same campaign again.

use vstd::prelude::*;
use crate::state::claim_cooldown::ClaimCooldown;

verus! {

/// Whether a claim at `now` respects the interval `claim_cooldown` after the
/// last claim. A pair that never claimed, marked by a time that is not
/// positive, is free to claim.
pub open spec fn cooldown_elapsed(last_claimed_at: i64, claim_cooldown: i64, now: i64) -> bool {
    last_claimed_at > 0 ==> now >= last_claimed_at + claim_cooldown
}

/// Whether the pair that `record` tracks may claim at `now`.
pub fn cooldown_satisfied(record: &ClaimCooldown, claim_cooldown: i64, now: i64) -> (free: bool)
    ensures
        free == cooldown_elapsed(record.last_claimed_at, claim_cooldown, now),
{
    if record.last_claimed_at > 0 {
        match record.last_claimed_at.checked_add(claim_cooldown) {
            Some(ready_at) => now >= ready_at,
            None => false,
        }
    } else {
        true
    }
}

} // verus!
