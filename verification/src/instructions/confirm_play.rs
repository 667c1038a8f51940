//! Confirm: a claimed play is settled and the node is paid.

use vstd::prelude::*;
use crate::errors::SamizdatError;
use crate::escrow::{pay_out, payout_keeps_reserve, spec_pay_out, spec_spendable_balance};
use crate::state::account::{Account, Signer};
use crate::state::campaign_account::CampaignAccount;
use crate::state::node_account::NodeAccount;
use crate::state::play_record::PlayRecord;
use crate::state::publisher_account::PublisherAccount;
use crate::state::shared::{PlayStatus, PLAY_TIMEOUT_SECONDS};

verus! {

/// The records a confirmation touches.
#[derive(Clone, Debug, PartialEq, Eq)]
pub struct ConfirmPlay {
    pub play_record: Account<PlayRecord>,
    pub campaign_account: Account<CampaignAccount>,
    pub publisher_account: Account<PublisherAccount>,
    pub node_account: Account<NodeAccount>,
    /// The caller, who must control the node and receives the bounty.
    pub authority: Signer,
}

/// The first way in which the records do not belong together, if there is
/// one: the play record must name the campaign and the node, the campaign
/// must name the publisher, and the caller must control the node.
pub open spec fn confirm_link_rejection(ctx: ConfirmPlay) -> Option<SamizdatError> {
    if ctx.play_record.data.campaign_account != ctx.campaign_account.key {
        Some(SamizdatError::InvalidCampaignId)
    } else if ctx.play_record.data.node_account != ctx.node_account.key {
        Some(SamizdatError::Unauthorized)
    } else if ctx.campaign_account.data.publisher_account != ctx.publisher_account.key {
        Some(SamizdatError::PublisherMismatch)
    } else if ctx.node_account.data.authority != ctx.authority.key {
        Some(SamizdatError::Unauthorized)
    } else {
        None
    }
}

/// Whether the payout would take from the reserve of the campaign's
/// balance, or a balance or a counter would leave its range.
pub open spec fn confirm_overflows(ctx: ConfirmPlay, rent_exempt_minimum: u64) -> bool {
    let bounty = ctx.campaign_account.data.bounty_per_play;
    ||| !payout_keeps_reserve(ctx.campaign_account.lamports, rent_exempt_minimum, bounty)
    ||| spec_pay_out(
        ctx.campaign_account.lamports,
        ctx.authority.lamports,
        bounty,
        rent_exempt_minimum,
    ) is Err
    ||| ctx.campaign_account.data.plays_completed == u64::MAX
    ||| ctx.node_account.data.total_plays == u64::MAX
    ||| ctx.node_account.data.total_earnings + bounty > u64::MAX
    ||| ctx.publisher_account.data.total_spent + bounty > u64::MAX
}

/// The first reason to refuse the confirmation, if there is one.
pub open spec fn confirm_rejection(ctx: ConfirmPlay, rent_exempt_minimum: u64, now: i64) -> Option<
    SamizdatError,
> {
    if confirm_link_rejection(ctx) is Some {
        confirm_link_rejection(ctx)
    } else if ctx.play_record.data.status != PlayStatus::Claimed {
        Some(SamizdatError::InvalidPlayStatus)
    } else if !ctx.play_record.data.spec_in_confirmation_window(now) {
        Some(SamizdatError::TimeoutExpired)
    } else if confirm_overflows(ctx, rent_exempt_minimum) {
        Some(SamizdatError::ArithmeticOverflow)
    } else {
        None
    }
}

/// The records after a confirmation that was admitted at `now`: exactly the
/// bounty moved from the campaign's custody balance to the caller, the play record is paid,
/// and the campaign, the node and the publisher count the play.
pub open spec fn confirm_effect(ctx: ConfirmPlay, now: i64) -> ConfirmPlay {
    let bounty = ctx.campaign_account.data.bounty_per_play;
    ConfirmPlay {
        play_record: Account {
            data: PlayRecord {
                status: PlayStatus::Paid,
                confirmed_at: now,
                payment_amount: bounty,
                ..ctx.play_record.data
            },
            ..ctx.play_record
        },
        campaign_account: Account {
            key: ctx.campaign_account.key,
            lamports: (ctx.campaign_account.lamports - bounty) as u64,
            data: CampaignAccount {
                plays_completed: (ctx.campaign_account.data.plays_completed + 1) as u64,
                ..ctx.campaign_account.data
            },
        },
        publisher_account: Account {
            data: PublisherAccount {
                total_spent: (ctx.publisher_account.data.total_spent + bounty) as u64,
                ..ctx.publisher_account.data
            },
            ..ctx.publisher_account
        },
        node_account: Account {
            data: NodeAccount {
                total_plays: (ctx.node_account.data.total_plays + 1) as u64,
                total_earnings: (ctx.node_account.data.total_earnings + bounty) as u64,
                ..ctx.node_account.data
            },
            ..ctx.node_account
        },
        authority: Signer { lamports: (ctx.authority.lamports + bounty) as u64, ..ctx.authority },
    }
}

/// Settles a claimed play at the time `now`, with `rent_exempt_minimum` as
/// the reserve of the campaign's balance.
pub fn process_confirm_play(ctx: &mut ConfirmPlay, rent_exempt_minimum: u64, now: i64) -> (result:
    Result<(), SamizdatError>)
    ensures
        match confirm_rejection(*old(ctx), rent_exempt_minimum, now) {
            Some(error) => result == Err::<(), SamizdatError>(error) && *final(ctx) == *old(ctx),
            None => result is Ok && *final(ctx) == confirm_effect(*old(ctx), now),
        },
        result is Ok ==> final(ctx).campaign_account.lamports >= rent_exempt_minimum,
        spec_spendable_balance(old(ctx).campaign_account.lamports, rent_exempt_minimum)
            < old(ctx).campaign_account.data.bounty_per_play ==> result is Err,
        result is Ok ==> spec_spendable_balance(
            final(ctx).campaign_account.lamports,
            rent_exempt_minimum,
        ) + old(ctx).campaign_account.data.bounty_per_play == spec_spendable_balance(
            old(ctx).campaign_account.lamports,
            rent_exempt_minimum,
        ),
        old(ctx).play_record.data.status != PlayStatus::Claimed ==> result is Err,
        old(ctx).play_record.data.status == PlayStatus::Claimed && now
            > old(ctx).play_record.data.claimed_at + PLAY_TIMEOUT_SECONDS ==> result is Err,
        confirm_link_rejection(*old(ctx)) is None && old(ctx).play_record.data.status
            == PlayStatus::Claimed && now > old(ctx).play_record.data.claimed_at
            + PLAY_TIMEOUT_SECONDS ==> result == Err::<(), SamizdatError>(
            SamizdatError::TimeoutExpired,
        ),
        result is Ok ==> now <= old(ctx).play_record.data.claimed_at + PLAY_TIMEOUT_SECONDS,
        result is Ok ==> final(ctx).play_record.data.status == PlayStatus::Paid,
        result is Ok ==> final(ctx).campaign_account.lamports + final(ctx).authority.lamports
            == old(ctx).campaign_account.lamports + old(ctx).authority.lamports,
        old(ctx).campaign_account.data@.well_formed()
            ==> final(ctx).campaign_account.data@.well_formed(),
{
    if ctx.play_record.data.campaign_account != ctx.campaign_account.key {
        return Err(SamizdatError::InvalidCampaignId);
    }
    if ctx.play_record.data.node_account != ctx.node_account.key {
        return Err(SamizdatError::Unauthorized);
    }
    if ctx.campaign_account.data.publisher_account != ctx.publisher_account.key {
        return Err(SamizdatError::PublisherMismatch);
    }
    if ctx.node_account.data.authority != ctx.authority.key {
        return Err(SamizdatError::Unauthorized);
    }
    if ctx.play_record.data.status != PlayStatus::Claimed {
        return Err(SamizdatError::InvalidPlayStatus);
    }
    if !ctx.play_record.data.in_confirmation_window(now) {
        return Err(SamizdatError::TimeoutExpired);
    }
    let bounty = ctx.campaign_account.data.bounty_per_play;
    let (campaign_after, payee_after) = match pay_out(
        ctx.campaign_account.lamports,
        ctx.authority.lamports,
        bounty,
        rent_exempt_minimum,
    ) {
        Ok(balances) => balances,
        Err(error) => {
            return Err(error);
        },
    };
    let plays_completed = match ctx.campaign_account.data.plays_completed.checked_add(1) {
        Some(count) => count,
        None => {
            return Err(SamizdatError::ArithmeticOverflow);
        },
    };
    let total_plays = match ctx.node_account.data.total_plays.checked_add(1) {
        Some(count) => count,
        None => {
            return Err(SamizdatError::ArithmeticOverflow);
        },
    };
    let total_earnings = match ctx.node_account.data.total_earnings.checked_add(bounty) {
        Some(sum) => sum,
        None => {
            return Err(SamizdatError::ArithmeticOverflow);
        },
    };
    let total_spent = match ctx.publisher_account.data.total_spent.checked_add(bounty) {
        Some(sum) => sum,
        None => {
            return Err(SamizdatError::ArithmeticOverflow);
        },
    };
    ctx.campaign_account.lamports = campaign_after;
    ctx.authority.lamports = payee_after;

    ctx.play_record.data.status = PlayStatus::Paid;
    ctx.play_record.data.confirmed_at = now;
    ctx.play_record.data.payment_amount = bounty;

    ctx.campaign_account.data.plays_completed = plays_completed;

    ctx.node_account.data.total_plays = total_plays;
    ctx.node_account.data.total_earnings = total_earnings;

    ctx.publisher_account.data.total_spent = total_spent;
    Ok(())
}

} // verus!
