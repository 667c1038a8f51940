//! Timeout: an unconfirmed claim is released back to the campaign.

use vstd::prelude::*;
use crate::errors::SamizdatError;
use crate::state::account::Account;
use crate::state::campaign_account::CampaignAccount;
use crate::state::play_record::PlayRecord;
use crate::state::shared::{PlayStatus, PLAY_TIMEOUT_SECONDS};

verus! {

/// The records a timeout touches. Anyone may ask for a timeout: there is
/// no caller among them.
#[derive(Clone, Debug, PartialEq, Eq)]
pub struct TimeoutPlay {
    pub play_record: Account<PlayRecord>,
    pub campaign_account: Account<CampaignAccount>,
}

/// The first reason to refuse the timeout, if there is one.
pub open spec fn timeout_rejection(ctx: TimeoutPlay, now: i64) -> Option<SamizdatError> {
    if ctx.play_record.data.campaign_account != ctx.campaign_account.key {
        Some(SamizdatError::InvalidCampaignId)
    } else if ctx.play_record.data.status != PlayStatus::Claimed {
        Some(SamizdatError::InvalidPlayStatus)
    } else if ctx.play_record.data.spec_in_confirmation_window(now) {
        Some(SamizdatError::TimeoutNotExpired)
    } else if ctx.campaign_account.data.plays_remaining == u64::MAX {
        Some(SamizdatError::ArithmeticOverflow)
    } else {
        None
    }
}

/// The records after a timeout that was admitted: the campaign has its
/// play back and the play record is timed out. Nothing is paid.
pub open spec fn timeout_effect(ctx: TimeoutPlay) -> TimeoutPlay {
    TimeoutPlay {
        play_record: Account {
            data: PlayRecord { status: PlayStatus::TimedOut, ..ctx.play_record.data },
            ..ctx.play_record
        },
        campaign_account: Account {
            data: CampaignAccount {
                plays_remaining: (ctx.campaign_account.data.plays_remaining + 1) as u64,
                ..ctx.campaign_account.data
            },
            ..ctx.campaign_account
        },
    }
}

/// Releases a claim whose confirmation window has closed at the time `now`.
pub fn process_timeout_play(ctx: &mut TimeoutPlay, now: i64) -> (result: Result<
    (),
    SamizdatError,
>)
    ensures
        match timeout_rejection(*old(ctx), now) {
            Some(error) => result == Err::<(), SamizdatError>(error) && *final(ctx) == *old(ctx),
            None => result is Ok && *final(ctx) == timeout_effect(*old(ctx)),
        },
        old(ctx).play_record.data.status != PlayStatus::Claimed ==> result is Err,
        now <= old(ctx).play_record.data.claimed_at + PLAY_TIMEOUT_SECONDS ==> result is Err,
        old(ctx).play_record.data.campaign_account == old(ctx).campaign_account.key
            && old(ctx).play_record.data.status == PlayStatus::Claimed && now
            <= old(ctx).play_record.data.claimed_at + PLAY_TIMEOUT_SECONDS ==> result == Err::<
            (),
            SamizdatError,
        >(SamizdatError::TimeoutNotExpired),
        old(ctx).play_record.data.campaign_account == old(ctx).campaign_account.key
            && old(ctx).play_record.data.status == PlayStatus::Claimed
            && old(ctx).campaign_account.data.plays_remaining < u64::MAX ==> (result is Ok <==> now
            > old(ctx).play_record.data.claimed_at + PLAY_TIMEOUT_SECONDS),
        result is Ok ==> now > old(ctx).play_record.data.claimed_at + PLAY_TIMEOUT_SECONDS,
        result is Ok ==> final(ctx).campaign_account.data.plays_remaining
            == old(ctx).campaign_account.data.plays_remaining + 1,
        old(ctx).campaign_account.data@.well_formed()
            ==> final(ctx).campaign_account.data@.well_formed(),
{
    if ctx.play_record.data.campaign_account != ctx.campaign_account.key {
        return Err(SamizdatError::InvalidCampaignId);
    }
    if ctx.play_record.data.status != PlayStatus::Claimed {
        return Err(SamizdatError::InvalidPlayStatus);
    }
    if ctx.play_record.data.in_confirmation_window(now) {
        return Err(SamizdatError::TimeoutNotExpired);
    }
    let plays_remaining = match ctx.campaign_account.data.plays_remaining.checked_add(1) {
        Some(count) => count,
        None => {
            return Err(SamizdatError::ArithmeticOverflow);
        },
    };
    ctx.campaign_account.data.plays_remaining = plays_remaining;
    ctx.play_record.data.status = PlayStatus::TimedOut;
    Ok(())
}

} // verus!
