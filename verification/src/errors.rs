//! The failures an operation can report.

use vstd::prelude::*;

verus! {

/// Why an operation was refused. A refused operation changes nothing.
#[derive(Clone, Copy, Debug, PartialEq, Eq, Structural)]
pub enum SamizdatError {
    /// The campaign handed in is not the one that the play record names.
    InvalidCampaignId,
    /// The content list is empty or would hold more than the allowed entries.
    TooManyCids,
    /// The bounty per play is zero.
    InvalidBounty,
    /// The number of plays is zero.
    InvalidPlays,
    /// The campaign has no plays left to claim.
    NoPlaysRemaining,
    /// The balance does not cover the amount.
    InsufficientFunds,
    /// The node does not satisfy the campaign's target filters.
    TargetMismatch,
    /// The campaign's content carries a tag that the node blocks.
    ContentFilterViolation,
    /// An unresolved play record already exists. The host ledger refuses a
    /// second record at one address by itself; no operation here reports this.
    ExistingClaim,
    /// The play record is not in the claimed state.
    InvalidPlayStatus,
    /// The confirmation window of the play is still open.
    TimeoutNotExpired,
    /// The confirmation window of the play has closed.
    TimeoutExpired,
    /// The caller does not control the identity it acts for.
    Unauthorized,
    /// The campaign's status does not allow the operation.
    CampaignNotActive,
    /// The node is not active.
    NodeNotActive,
    /// The publisher is not active.
    PublisherNotActive,
    /// The campaign belongs to another publisher.
    PublisherMismatch,
    /// A content identifier is empty or too long.
    InvalidCid,
    /// An amount is zero, or a duration is negative.
    InvalidAmount,
    /// The content index is outside the campaign's content list.
    InvalidCidIndex,
    /// The requested status can not be set this way.
    InvalidStatusTransition,
    /// The node claimed this campaign too recently.
    CooldownNotExpired,
    /// A counter or a balance would leave its range.
    ArithmeticOverflow,
}

} // verus!
