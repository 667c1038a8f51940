//! What holds of the operations taken together.

use vstd::prelude::*;
use crate::address::Address;
use crate::errors::SamizdatError;
use crate::instructions::add_cids_to_campaign::add_cids_effect;
use crate::instructions::claim_campaign::{claim_effect, claim_rejection, ClaimCampaign};
use crate::instructions::close_campaign::{close_effect, CloseCampaign};
use crate::instructions::confirm_play::{
    confirm_effect, confirm_link_rejection, confirm_rejection, ConfirmPlay,
};
use crate::instructions::create_campaign::{create_effect, create_rejection, CreateCampaign};
use crate::instructions::fund_campaign::{fund_effect, fund_rejection, FundCampaign};
use crate::instructions::timeout_play::{timeout_effect, timeout_rejection, TimeoutPlay};
use crate::instructions::update_campaign::{update_effect, update_rejection, UpdateCampaign};
use crate::state::campaign_account::{CampaignAccount, CampaignView};
use crate::state::play_record::PlayRecord;
use crate::state::shared::{
    strings_view, CampaignStatus, NodeStatus, PlayStatus, TargetFilters, PLAY_TIMEOUT_SECONDS,
};
use crate::escrow::{lemma_payout_needs_custody, spec_spendable_balance};
use crate::state::account::Account;
use crate::targeting::tags_blocked;

verus! {

/// How many records of `records` are unresolved claims against the
/// campaign at `campaign`.
pub open spec fn open_claims(records: Seq<PlayRecord>, campaign: Address) -> nat
    decreases records.len(),
{
    if records.len() == 0 {
        0
    } else {
        let earlier = open_claims(records.drop_last(), campaign);
        if records.last().is_open_against(campaign) {
            earlier + 1
        } else {
            earlier
        }
    }
}

/// The plays of a campaign that are accounted for: those that remain, those
/// that were paid, and those that are claimed and not yet resolved.
pub open spec fn plays_accounted(
    campaign: CampaignAccount,
    key: Address,
    records: Seq<PlayRecord>,
) -> int {
    campaign.plays_remaining + campaign.plays_completed + open_claims(records, key)
}

/// A record more counts as one open claim more exactly when it is one.
pub proof fn lemma_open_claims_push(records: Seq<PlayRecord>, record: PlayRecord, campaign: Address)
    ensures
        open_claims(records.push(record), campaign) == open_claims(records, campaign) + (if record.is_open_against(
            campaign,
        ) {
            1nat
        } else {
            0nat
        }),
{
    assert(records.push(record).drop_last() =~= records);
}

/// Replacing one record changes the count of open claims by what the old
/// record counted and what the new one counts.
pub proof fn lemma_open_claims_update(
    records: Seq<PlayRecord>,
    index: int,
    record: PlayRecord,
    campaign: Address,
)
    requires
        0 <= index < records.len(),
    ensures
        open_claims(records.update(index, record), campaign) + (if records[index].is_open_against(
            campaign,
        ) {
            1nat
        } else {
            0nat
        }) == open_claims(records, campaign) + (if record.is_open_against(campaign) {
            1nat
        } else {
            0nat
        }),
    decreases records.len(),
{
    let updated = records.update(index, record);
    if index == records.len() - 1 {
        assert(updated.drop_last() =~= records.drop_last());
    } else {
        assert(updated.drop_last() =~= records.drop_last().update(index, record));
        lemma_open_claims_update(records.drop_last(), index, record, campaign);
    }
}

/// A campaign that was just created accounts for exactly the plays that
/// were funded: all of them remain, and no record exists yet.
pub proof fn lemma_create_accounts_for_all_plays(
    ctx: CreateCampaign,
    campaign_id: u64,
    cids: Vec<String>,
    bounty_per_play: u64,
    total_plays: u64,
    tag_mask: u64,
    target_filters: TargetFilters,
    claim_cooldown: i64,
    now: i64,
)
    requires
        create_rejection(ctx, strings_view(cids@), bounty_per_play, total_plays, claim_cooldown)
            is None,
    ensures
        ({
            let created = create_effect(
                ctx,
                campaign_id,
                cids,
                bounty_per_play,
                total_plays,
                tag_mask,
                target_filters,
                claim_cooldown,
                now,
            ).campaign_account;
            plays_accounted(created.data, created.key, Seq::empty()) == total_plays
        }),
{
}

/// A claim keeps the plays of its campaign accounted for: the play that
/// no longer remains is the open claim that the new record adds.
pub proof fn lemma_claim_conserves_plays(
    ctx: ClaimCampaign,
    cid_index: u8,
    claim_nonce: i64,
    rent_exempt_minimum: u64,
    now: i64,
    records: Seq<PlayRecord>,
)
    requires
        claim_rejection(ctx, cid_index, rent_exempt_minimum, now) is None,
    ensures
        ({
            let after = claim_effect(ctx, cid_index, claim_nonce, now);
            plays_accounted(
                after.campaign_account.data,
                after.campaign_account.key,
                records.push(after.play_record.data),
            ) == plays_accounted(ctx.campaign_account.data, ctx.campaign_account.key, records)
        }),
{
    let after = claim_effect(ctx, cid_index, claim_nonce, now);
    lemma_open_claims_push(records, after.play_record.data, ctx.campaign_account.key);
}

/// A confirmation keeps the plays of its campaign accounted for: the open
/// claim that it resolves becomes the play that it counts as completed.
pub proof fn lemma_confirm_conserves_plays(
    ctx: ConfirmPlay,
    rent_exempt_minimum: u64,
    now: i64,
    records: Seq<PlayRecord>,
    index: int,
)
    requires
        confirm_rejection(ctx, rent_exempt_minimum, now) is None,
        0 <= index < records.len(),
        records[index] == ctx.play_record.data,
    ensures
        ({
            let after = confirm_effect(ctx, now);
            plays_accounted(
                after.campaign_account.data,
                after.campaign_account.key,
                records.update(index, after.play_record.data),
            ) == plays_accounted(ctx.campaign_account.data, ctx.campaign_account.key, records)
        }),
{
    let after = confirm_effect(ctx, now);
    lemma_open_claims_update(records, index, after.play_record.data, ctx.campaign_account.key);
}

/// A timeout keeps the plays of its campaign accounted for: the open claim
/// that it resolves becomes a play that remains.
pub proof fn lemma_timeout_conserves_plays(
    ctx: TimeoutPlay,
    now: i64,
    records: Seq<PlayRecord>,
    index: int,
)
    requires
        timeout_rejection(ctx, now) is None,
        0 <= index < records.len(),
        records[index] == ctx.play_record.data,
    ensures
        ({
            let after = timeout_effect(ctx);
            plays_accounted(
                after.campaign_account.data,
                after.campaign_account.key,
                records.update(index, after.play_record.data),
            ) == plays_accounted(ctx.campaign_account.data, ctx.campaign_account.key, records)
        }),
{
    let after = timeout_effect(ctx);
    lemma_open_claims_update(records, index, after.play_record.data, ctx.campaign_account.key);
}

/// Funding, updating, adding content and closing move none of the plays of
/// a campaign: what is accounted for stays the same, whatever records exist.
pub proof fn lemma_upkeep_conserves_plays(
    fund: FundCampaign,
    amount: u64,
    update: UpdateCampaign,
    tag_mask: Option<u64>,
    target_filters: Option<TargetFilters>,
    status: Option<CampaignStatus>,
    close: CloseCampaign,
    campaign: CampaignView,
    new_cids: Seq<Seq<char>>,
    records: Seq<PlayRecord>,
)
    ensures
        plays_accounted(
            fund_effect(fund, amount).campaign_account.data,
            fund_effect(fund, amount).campaign_account.key,
            records,
        ) == plays_accounted(fund.campaign_account.data, fund.campaign_account.key, records),
        plays_accounted(
            update_effect(update, tag_mask, target_filters, status).campaign_account.data,
            update_effect(update, tag_mask, target_filters, status).campaign_account.key,
            records,
        ) == plays_accounted(update.campaign_account.data, update.campaign_account.key, records),
        plays_accounted(
            close_effect(close).campaign_account.data,
            close_effect(close).campaign_account.key,
            records,
        ) == plays_accounted(close.campaign_account.data, close.campaign_account.key, records),
        add_cids_effect(campaign, new_cids).plays_remaining == campaign.plays_remaining,
        add_cids_effect(campaign, new_cids).plays_completed == campaign.plays_completed,
{
}

/// The counters of a campaign move only with its plays: a claim takes one
/// from those that remain, a timeout gives one back, a confirmation counts
/// one as completed, and nothing else changes either counter.
pub proof fn lemma_counters_move_only_with_plays(
    claim: ClaimCampaign,
    cid_index: u8,
    claim_nonce: i64,
    confirm: ConfirmPlay,
    timeout: TimeoutPlay,
    now: i64,
)
    ensures
        ({
            let before = claim.campaign_account.data;
            let after = claim_effect(claim, cid_index, claim_nonce, now).campaign_account.data;
            before.plays_remaining > 0 ==> after.plays_remaining == before.plays_remaining - 1
                && after.plays_completed == before.plays_completed
        }),
        ({
            let before = confirm.campaign_account.data;
            let after = confirm_effect(confirm, now).campaign_account.data;
            before.plays_completed < u64::MAX ==> after.plays_completed == before.plays_completed
                + 1 && after.plays_remaining == before.plays_remaining
        }),
        ({
            let before = timeout.campaign_account.data;
            let after = timeout_effect(timeout).campaign_account.data;
            before.plays_remaining < u64::MAX ==> after.plays_remaining == before.plays_remaining
                + 1 && after.plays_completed == before.plays_completed
        }),
{
}

/// A play is paid at most once: after a confirmation, every further
/// confirmation of the same records is refused because the record is no
/// longer claimed, whenever it is asked for and whatever the reserve is then.
pub proof fn lemma_confirm_at_most_once(
    ctx: ConfirmPlay,
    rent_exempt_minimum: u64,
    now: i64,
    later_minimum: u64,
    later: i64,
)
    requires
        confirm_rejection(ctx, rent_exempt_minimum, now) is None,
    ensures
        confirm_rejection(confirm_effect(ctx, now), later_minimum, later) == Some(
            SamizdatError::InvalidPlayStatus,
        ),
{
}

/// A resolved play stays resolved: a record that is paid or timed out is
/// neither confirmed nor timed out again.
pub proof fn lemma_resolved_play_is_final(
    confirm: ConfirmPlay,
    rent_exempt_minimum: u64,
    timeout: TimeoutPlay,
    now: i64,
)
    ensures
        confirm.play_record.data.status != PlayStatus::Claimed ==> confirm_rejection(confirm, rent_exempt_minimum, now)
            is Some,
        confirm.play_record.data.status != PlayStatus::Claimed && confirm_link_rejection(confirm)
            is None ==> confirm_rejection(confirm, rent_exempt_minimum, now) == Some(SamizdatError::InvalidPlayStatus),
        timeout.play_record.data.status != PlayStatus::Claimed ==> timeout_rejection(timeout, now)
            is Some,
        timeout.play_record.data.status != PlayStatus::Claimed
            && timeout.play_record.data.campaign_account == timeout.campaign_account.key
            ==> timeout_rejection(timeout, now) == Some(SamizdatError::InvalidPlayStatus),
{
}

/// The confirmation window and the timeout never overlap and leave no gap.
/// A play claimed at `claimed_at` can be confirmed up to and at
/// `claimed_at + 300` and not after; it can time out after that moment
/// and not before or at it.
pub proof fn lemma_confirm_and_timeout_exclude_each_other(
    confirm: ConfirmPlay,
    rent_exempt_minimum: u64,
    timeout: TimeoutPlay,
    now: i64,
)
    requires
        confirm.play_record.data == timeout.play_record.data,
    ensures
        confirm_rejection(confirm, rent_exempt_minimum, now) is None ==> now <= confirm.play_record.data.claimed_at
            + PLAY_TIMEOUT_SECONDS,
        timeout_rejection(timeout, now) is None ==> now > timeout.play_record.data.claimed_at
            + PLAY_TIMEOUT_SECONDS,
        !(confirm_rejection(confirm, rent_exempt_minimum, now) is None && timeout_rejection(timeout, now) is None),
        confirm_link_rejection(confirm) is None && confirm.play_record.data.status
            == PlayStatus::Claimed && now > confirm.play_record.data.claimed_at
            + PLAY_TIMEOUT_SECONDS ==> confirm_rejection(confirm, rent_exempt_minimum, now) == Some(
            SamizdatError::TimeoutExpired,
        ),
        timeout.play_record.data.campaign_account == timeout.campaign_account.key
            && timeout.play_record.data.status == PlayStatus::Claimed && now
            <= timeout.play_record.data.claimed_at + PLAY_TIMEOUT_SECONDS ==> timeout_rejection(
            timeout,
            now,
        ) == Some(SamizdatError::TimeoutNotExpired),
{
}

/// A campaign without remaining plays admits no claim. Where the caller
/// controls the node and both the campaign and the node are active, the
/// reason given is that no plays remain.
pub proof fn lemma_claim_without_plays_is_refused(
    ctx: ClaimCampaign,
    cid_index: u8,
    rent_exempt_minimum: u64,
    now: i64,
)
    requires
        ctx.campaign_account.data.plays_remaining == 0,
    ensures
        claim_rejection(ctx, cid_index, rent_exempt_minimum, now) is Some,
        ctx.node_account.data.authority == ctx.authority.key && ctx.campaign_account.data.status
            == CampaignStatus::Active && ctx.node_account.data.status == NodeStatus::Active
            ==> claim_rejection(ctx, cid_index, rent_exempt_minimum, now) == Some(
            SamizdatError::NoPlaysRemaining,
        ),
{
}

/// A node that blocks one of the tags of a campaign never claims it,
/// whatever the filters, the balance and the time.
pub proof fn lemma_blocked_content_is_never_claimed(
    ctx: ClaimCampaign,
    cid_index: u8,
    rent_exempt_minimum: u64,
    now: i64,
)
    requires
        tags_blocked(ctx.campaign_account.data.tag_mask, ctx.node_account.data.blocked_tag_mask),
    ensures
        claim_rejection(ctx, cid_index, rent_exempt_minimum, now) is Some,
{
}

/// Funding never makes a campaign active: a depleted campaign becomes
/// paused, and every other campaign keeps its status.
pub proof fn lemma_funding_never_activates(ctx: FundCampaign, amount: u64)
    requires
        fund_rejection(ctx, amount) is None,
    ensures
        ctx.campaign_account.data.status == CampaignStatus::Depleted ==> fund_effect(
            ctx,
            amount,
        ).campaign_account.data.status == CampaignStatus::Paused,
        ctx.campaign_account.data.status != CampaignStatus::Active ==> fund_effect(
            ctx,
            amount,
        ).campaign_account.data.status != CampaignStatus::Active,
        ctx.campaign_account.data.status != CampaignStatus::Depleted ==> fund_effect(
            ctx,
            amount,
        ).campaign_account.data.status == ctx.campaign_account.data.status,
{
}

/// A campaign that was depleted and then funded is not served until its
/// publisher activates it: every claim is refused, and a claim by the
/// party that controls the node is refused because the campaign is not
/// active.
pub proof fn lemma_funded_campaign_waits_for_its_publisher(
    fund: FundCampaign,
    amount: u64,
    claim: ClaimCampaign,
    cid_index: u8,
    rent_exempt_minimum: u64,
    now: i64,
)
    requires
        fund_rejection(fund, amount) is None,
        fund.campaign_account.data.status == CampaignStatus::Depleted,
        claim.campaign_account == fund_effect(fund, amount).campaign_account,
    ensures
        claim_rejection(claim, cid_index, rent_exempt_minimum, now) is Some,
        claim.node_account.data.authority == claim.authority.key ==> claim_rejection(
            claim,
            cid_index,
            rent_exempt_minimum,
            now,
        ) == Some(SamizdatError::CampaignNotActive),
{
}

/// The bounties that a campaign may still have to pay: one for each play
/// that remains and one for each claim that is not resolved.
pub open spec fn bounties_outstanding(
    campaign: CampaignAccount,
    key: Address,
    records: Seq<PlayRecord>,
) -> int {
    campaign.bounty_per_play * (campaign.plays_remaining + open_claims(records, key))
}

/// Whether the custody balance of a campaign, what it holds above the
/// reserve, covers every bounty that it may still have to pay.
pub open spec fn solvent(
    campaign: Account<CampaignAccount>,
    rent_exempt_minimum: u64,
    records: Seq<PlayRecord>,
) -> bool {
    spec_spendable_balance(campaign.lamports, rent_exempt_minimum) >= bounties_outstanding(
        campaign.data,
        campaign.key,
        records,
    )
}

/// A campaign is solvent when it is created, if the slot it is created in
/// holds its reserve: the budget that was escrowed is the bounty of every
/// play.
pub proof fn lemma_create_is_solvent(
    ctx: CreateCampaign,
    campaign_id: u64,
    cids: Vec<String>,
    bounty_per_play: u64,
    total_plays: u64,
    tag_mask: u64,
    target_filters: TargetFilters,
    claim_cooldown: i64,
    now: i64,
    rent_exempt_minimum: u64,
)
    requires
        create_rejection(ctx, strings_view(cids@), bounty_per_play, total_plays, claim_cooldown)
            is None,
        ctx.campaign_account.lamports >= rent_exempt_minimum,
    ensures
        solvent(
            create_effect(
                ctx,
                campaign_id,
                cids,
                bounty_per_play,
                total_plays,
                tag_mask,
                target_filters,
                claim_cooldown,
                now,
            ).campaign_account,
            rent_exempt_minimum,
            Seq::empty(),
        ),
{
}

/// A claim keeps a solvent campaign solvent: the play that no longer
/// remains is the claim that is now open, and the balance is the same.
pub proof fn lemma_claim_keeps_solvency(
    ctx: ClaimCampaign,
    cid_index: u8,
    claim_nonce: i64,
    rent_exempt_minimum: u64,
    now: i64,
    records: Seq<PlayRecord>,
)
    requires
        claim_rejection(ctx, cid_index, rent_exempt_minimum, now) is None,
        solvent(ctx.campaign_account, rent_exempt_minimum, records),
    ensures
        ({
            let after = claim_effect(ctx, cid_index, claim_nonce, now);
            solvent(
                after.campaign_account,
                rent_exempt_minimum,
                records.push(after.play_record.data),
            )
        }),
{
    let after = claim_effect(ctx, cid_index, claim_nonce, now);
    lemma_open_claims_push(records, after.play_record.data, ctx.campaign_account.key);
}

/// A confirmation keeps a solvent campaign solvent: the bounty that left
/// the custody balance is the one that the resolved claim was owed.
pub proof fn lemma_confirm_keeps_solvency(
    ctx: ConfirmPlay,
    rent_exempt_minimum: u64,
    now: i64,
    records: Seq<PlayRecord>,
    index: int,
)
    requires
        confirm_rejection(ctx, rent_exempt_minimum, now) is None,
        0 <= index < records.len(),
        records[index] == ctx.play_record.data,
        solvent(ctx.campaign_account, rent_exempt_minimum, records),
    ensures
        ({
            let after = confirm_effect(ctx, now);
            solvent(
                after.campaign_account,
                rent_exempt_minimum,
                records.update(index, after.play_record.data),
            )
        }),
{
    let after = confirm_effect(ctx, now);
    let key = ctx.campaign_account.key;
    let bounty = ctx.campaign_account.data.bounty_per_play;
    let owed = ctx.campaign_account.data.plays_remaining + open_claims(records, key);
    lemma_open_claims_update(records, index, after.play_record.data, key);
    lemma_payout_needs_custody(ctx.campaign_account.lamports, rent_exempt_minimum, bounty);
    assert(bounty * (owed - 1) == bounty * owed - bounty) by (nonlinear_arith);
}

/// A timeout keeps a solvent campaign solvent: the claim that is resolved
/// is the play that remains again, and the balance is the same.
pub proof fn lemma_timeout_keeps_solvency(
    ctx: TimeoutPlay,
    rent_exempt_minimum: u64,
    now: i64,
    records: Seq<PlayRecord>,
    index: int,
)
    requires
        timeout_rejection(ctx, now) is None,
        0 <= index < records.len(),
        records[index] == ctx.play_record.data,
        solvent(ctx.campaign_account, rent_exempt_minimum, records),
    ensures
        ({
            let after = timeout_effect(ctx);
            solvent(
                after.campaign_account,
                rent_exempt_minimum,
                records.update(index, after.play_record.data),
            )
        }),
{
    let after = timeout_effect(ctx);
    lemma_open_claims_update(records, index, after.play_record.data, ctx.campaign_account.key);
}

/// Funding and updating keep a solvent campaign solvent: neither takes
/// from the balance nor adds to what is owed.
pub proof fn lemma_upkeep_keeps_solvency(
    fund: FundCampaign,
    amount: u64,
    update: UpdateCampaign,
    tag_mask: Option<u64>,
    target_filters: Option<TargetFilters>,
    status: Option<CampaignStatus>,
    rent_exempt_minimum: u64,
    records: Seq<PlayRecord>,
)
    ensures
        fund_rejection(fund, amount) is None && solvent(
            fund.campaign_account,
            rent_exempt_minimum,
            records,
        ) ==> solvent(fund_effect(fund, amount).campaign_account, rent_exempt_minimum, records),
        solvent(update.campaign_account, rent_exempt_minimum, records) ==> solvent(
            update_effect(update, tag_mask, target_filters, status).campaign_account,
            rent_exempt_minimum,
            records,
        ),
{
}

/// No update closes a campaign, and a closed campaign takes neither an
/// update nor funds.
pub proof fn lemma_closed_is_terminal(
    update: UpdateCampaign,
    tag_mask: Option<u64>,
    target_filters: Option<TargetFilters>,
    status: Option<CampaignStatus>,
    fund: FundCampaign,
    amount: u64,
)
    ensures
        update_rejection(update, status) is None ==> update_effect(
            update,
            tag_mask,
            target_filters,
            status,
        ).campaign_account.data.status != CampaignStatus::Closed,
        update.campaign_account.data.status == CampaignStatus::Closed ==> update_rejection(
            update,
            status,
        ) is Some,
        fund.campaign_account.data.status == CampaignStatus::Closed ==> fund_rejection(fund, amount)
            is Some,
{
}

} // verus!
