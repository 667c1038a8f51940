use samizdat::address::Address;
use samizdat::errors::SamizdatError;
use samizdat::instructions::{
    process_claim_campaign, process_confirm_play, process_create_campaign,
    process_fund_campaign, process_timeout_play, ClaimCampaign, ClaimCampaignBumps,
    ConfirmPlay, CreateCampaign, CreateCampaignBumps, FundCampaign, TimeoutPlay,
};
use samizdat::state::{
    Account, CampaignAccount, CampaignStatus, ClaimCooldown, GeoBounds, GeoLocation,
    NodeAccount, NodeStatus, PlayRecord, PlayStatus, PublisherAccount, PublisherStatus,
    Resolution, ScreenSize, Signer, TargetFilters,
};

const RENT: u64 = 2_000;

fn addr(n: u8) -> Address {
    Address { bytes: [n; 32] }
}

fn publisher_key() -> Address {
    addr(1)
}

fn campaign_key() -> Address {
    addr(2)
}

fn node_key() -> Address {
    addr(3)
}

fn publisher_wallet() -> Address {
    addr(4)
}

fn node_wallet() -> Address {
    addr(5)
}

fn record_key() -> Address {
    addr(6)
}

fn cooldown_key() -> Address {
    addr(7)
}

fn no_filters() -> TargetFilters {
    TargetFilters {
        min_footfall: None,
        max_footfall: None,
        screen_sizes: vec![],
        geo_bounds: None,
        establishment_types: vec![],
        required_landmarks: vec![],
    }
}

fn publisher() -> PublisherAccount {
    PublisherAccount {
        authority: publisher_wallet(),
        total_campaigns: 0,
        total_spent: 0,
        registered_at: 10,
        status: PublisherStatus::Active,
        bump: 255,
    }
}

fn node() -> NodeAccount {
    NodeAccount {
        authority: node_wallet(),
        node_id: 9,
        location: GeoLocation { latitude: 407_128_000, longitude: -740_060_000 },
        screen_size: ScreenSize::Large,
        resolution: Resolution { width: 1920, height: 1080 },
        landmarks: vec!["station".to_string(), "mall".to_string()],
        blocked_tag_mask: 0,
        estimated_footfall: 500,
        establishment_type: "cafe".to_string(),
        total_plays: 0,
        total_earnings: 0,
        registered_at: 20,
        status: NodeStatus::Active,
        bump: 254,
    }
}

fn campaign(bounty_per_play: u64, plays_remaining: u64) -> CampaignAccount {
    CampaignAccount {
        publisher_account: publisher_key(),
        campaign_id: 1,
        cids: vec!["QmFirst".to_string(), "QmSecond".to_string()],
        bounty_per_play,
        plays_remaining,
        plays_completed: 0,
        tag_mask: 0,
        target_filters: no_filters(),
        status: CampaignStatus::Active,
        claim_cooldown: 60,
        created_at: 30,
        bump: 253,
    }
}

fn blank_record() -> PlayRecord {
    PlayRecord {
        campaign_account: addr(0),
        node_account: addr(0),
        nonce: 0,
        claimed_at: 0,
        confirmed_at: 0,
        cid_index: 0,
        payment_amount: 0,
        status: PlayStatus::Claimed,
        bump: 0,
    }
}

fn blank_cooldown() -> ClaimCooldown {
    ClaimCooldown { campaign: addr(0), node: addr(0), last_claimed_at: 0, bump: 0 }
}

fn claim_ctx(campaign: CampaignAccount, lamports: u64) -> ClaimCampaign {
    ClaimCampaign {
        play_record: Account { key: record_key(), lamports: 0, data: blank_record() },
        claim_cooldown: Account { key: cooldown_key(), lamports: 0, data: blank_cooldown() },
        campaign_account: Account { key: campaign_key(), lamports, data: campaign },
        node_account: Account { key: node_key(), lamports: 0, data: node() },
        authority: Signer { key: node_wallet(), lamports: 50 },
        bumps: ClaimCampaignBumps { play_record: 251, claim_cooldown: 250 },
    }
}

fn confirm_ctx(claimed: &ClaimCampaign) -> ConfirmPlay {
    ConfirmPlay {
        play_record: claimed.play_record.clone(),
        campaign_account: claimed.campaign_account.clone(),
        publisher_account: Account { key: publisher_key(), lamports: 0, data: publisher() },
        node_account: claimed.node_account.clone(),
        authority: claimed.authority,
    }
}

fn timeout_ctx(claimed: &ClaimCampaign) -> TimeoutPlay {
    TimeoutPlay {
        play_record: claimed.play_record.clone(),
        campaign_account: claimed.campaign_account.clone(),
    }
}

fn open_claims(records: &[PlayRecord], campaign: Address) -> u64 {
    records
        .iter()
        .filter(|r| r.campaign_account == campaign && r.status == PlayStatus::Claimed)
        .count() as u64
}

#[test]
fn claim_creates_a_claimed_record_and_takes_one_play() {
    let mut ctx = claim_ctx(campaign(100, 5), RENT + 500);
    let before = ctx.clone();
    assert_eq!(process_claim_campaign(&mut ctx, 1, 77, RENT, 1_000), Ok(()));
    assert_eq!(ctx.campaign_account.data.plays_remaining, 4);
    assert_eq!(ctx.campaign_account.data.plays_completed, 0);
    assert_eq!(ctx.campaign_account.lamports, RENT + 500);
    assert_eq!(
        ctx.play_record.data,
        PlayRecord {
            campaign_account: campaign_key(),
            node_account: node_key(),
            nonce: 77,
            claimed_at: 1_000,
            confirmed_at: 0,
            cid_index: 1,
            payment_amount: 0,
            status: PlayStatus::Claimed,
            bump: 251,
        }
    );
    assert_eq!(
        ctx.claim_cooldown.data,
        ClaimCooldown {
            campaign: campaign_key(),
            node: node_key(),
            last_claimed_at: 1_000,
            bump: 250,
        }
    );
    assert_eq!(ctx.play_record.key, record_key());
    assert_eq!(ctx.node_account, before.node_account);
    assert_eq!(ctx.authority, before.authority);
    assert_eq!(ctx.bumps, before.bumps);
}

#[test]
fn claim_by_a_stranger_is_unauthorized() {
    let mut ctx = claim_ctx(campaign(100, 5), RENT + 500);
    ctx.authority.key = addr(99);
    let before = ctx.clone();
    assert_eq!(
        process_claim_campaign(&mut ctx, 0, 1, RENT, 1_000),
        Err(SamizdatError::Unauthorized)
    );
    assert_eq!(ctx, before);
}

#[test]
fn claim_of_a_paused_campaign_is_refused() {
    for status in [CampaignStatus::Paused, CampaignStatus::Depleted, CampaignStatus::Closed] {
        let mut data = campaign(100, 5);
        data.status = status;
        let mut ctx = claim_ctx(data, RENT + 500);
        let before = ctx.clone();
        assert_eq!(
            process_claim_campaign(&mut ctx, 0, 1, RENT, 1_000),
            Err(SamizdatError::CampaignNotActive)
        );
        assert_eq!(ctx, before);
    }
}

#[test]
fn claim_by_an_inactive_node_is_refused() {
    for status in [NodeStatus::Offline, NodeStatus::Suspended] {
        let mut ctx = claim_ctx(campaign(100, 5), RENT + 500);
        ctx.node_account.data.status = status;
        let before = ctx.clone();
        assert_eq!(
            process_claim_campaign(&mut ctx, 0, 1, RENT, 1_000),
            Err(SamizdatError::NodeNotActive)
        );
        assert_eq!(ctx, before);
    }
}

#[test]
fn claim_without_plays_fails_and_never_decrements() {
    let mut ctx = claim_ctx(campaign(100, 0), RENT + 500);
    let before = ctx.clone();
    assert_eq!(
        process_claim_campaign(&mut ctx, 0, 1, RENT, 1_000),
        Err(SamizdatError::NoPlaysRemaining)
    );
    assert_eq!(ctx, before);
    assert_eq!(ctx.campaign_account.data.plays_remaining, 0);
}

#[test]
fn claim_checks_the_content_index() {
    let mut ctx = claim_ctx(campaign(100, 5), RENT + 500);
    let before = ctx.clone();
    assert_eq!(
        process_claim_campaign(&mut ctx, 2, 1, RENT, 1_000),
        Err(SamizdatError::InvalidCidIndex)
    );
    assert_eq!(ctx, before);
    assert_eq!(
        process_claim_campaign(&mut ctx, 255, 1, RENT, 1_000),
        Err(SamizdatError::InvalidCidIndex)
    );
    assert_eq!(process_claim_campaign(&mut ctx, 1, 1, RENT, 1_000), Ok(()));
}

#[test]
fn a_blocked_tag_stops_the_claim_whatever_else_holds() {
    let mut data = campaign(100, 5);
    data.tag_mask = 0b0110;
    let mut ctx = claim_ctx(data, RENT + 500);
    ctx.node_account.data.blocked_tag_mask = 0b1100;
    let before = ctx.clone();
    assert_eq!(
        process_claim_campaign(&mut ctx, 0, 1, RENT, 1_000),
        Err(SamizdatError::ContentFilterViolation)
    );
    assert_eq!(ctx, before);

    ctx.node_account.data.blocked_tag_mask = 0b1001;
    assert_eq!(process_claim_campaign(&mut ctx, 0, 1, RENT, 1_000), Ok(()));
}

#[test]
fn claim_is_refused_when_a_filter_fails() {
    let mut data = campaign(100, 5);
    data.target_filters.min_footfall = Some(501);
    let mut ctx = claim_ctx(data, RENT + 500);
    let before = ctx.clone();
    assert_eq!(
        process_claim_campaign(&mut ctx, 0, 1, RENT, 1_000),
        Err(SamizdatError::TargetMismatch)
    );
    assert_eq!(ctx, before);

    let mut data = campaign(100, 5);
    data.target_filters.geo_bounds =
        Some(GeoBounds { min_lat: 0, max_lat: 10, min_lon: 0, max_lon: 10 });
    let mut ctx = claim_ctx(data, RENT + 500);
    assert_eq!(
        process_claim_campaign(&mut ctx, 0, 1, RENT, 1_000),
        Err(SamizdatError::TargetMismatch)
    );
}

#[test]
fn claim_needs_one_bounty_above_the_reserve() {
    let mut ctx = claim_ctx(campaign(100, 5), RENT + 99);
    let before = ctx.clone();
    assert_eq!(
        process_claim_campaign(&mut ctx, 0, 1, RENT, 1_000),
        Err(SamizdatError::InsufficientFunds)
    );
    assert_eq!(ctx, before);

    let mut ctx = claim_ctx(campaign(100, 5), RENT - 1);
    assert_eq!(
        process_claim_campaign(&mut ctx, 0, 1, RENT, 1_000),
        Err(SamizdatError::InsufficientFunds)
    );

    let mut ctx = claim_ctx(campaign(100, 5), RENT + 100);
    assert_eq!(process_claim_campaign(&mut ctx, 0, 1, RENT, 1_000), Ok(()));
}

#[test]
fn second_claim_waits_for_the_cooldown() {
    let mut first = claim_ctx(campaign(100, 5), RENT + 500);
    assert_eq!(process_claim_campaign(&mut first, 0, 1, RENT, 1_000), Ok(()));

    let mut early = first.clone();
    early.play_record = Account { key: addr(60), lamports: 0, data: blank_record() };
    let before = early.clone();
    assert_eq!(
        process_claim_campaign(&mut early, 0, 2, RENT, 1_000 + 60 - 1),
        Err(SamizdatError::CooldownNotExpired)
    );
    assert_eq!(early, before);

    let mut on_time = before.clone();
    assert_eq!(process_claim_campaign(&mut on_time, 0, 2, RENT, 1_000 + 60), Ok(()));
    assert_eq!(on_time.campaign_account.data.plays_remaining, 3);
    assert_eq!(on_time.claim_cooldown.data.last_claimed_at, 1_060);
    assert_eq!(on_time.play_record.data.nonce, 2);
    assert_eq!(on_time.play_record.data.claimed_at, 1_060);
}

#[test]
fn cooldown_that_leaves_the_range_of_time_never_ends() {
    let mut data = campaign(100, 5);
    data.claim_cooldown = i64::MAX;
    let mut ctx = claim_ctx(data, RENT + 500);
    ctx.claim_cooldown.data.last_claimed_at = 1;
    assert_eq!(
        process_claim_campaign(&mut ctx, 0, 1, RENT, i64::MAX),
        Err(SamizdatError::CooldownNotExpired)
    );
}

#[test]
fn a_pair_that_never_claimed_has_no_cooldown() {
    let mut data = campaign(100, 5);
    data.claim_cooldown = 1_000_000;
    let mut ctx = claim_ctx(data, RENT + 500);
    ctx.claim_cooldown.data.last_claimed_at = 0;
    assert_eq!(process_claim_campaign(&mut ctx, 0, 1, RENT, 5), Ok(()));

    let mut data = campaign(100, 5);
    data.claim_cooldown = 1_000_000;
    let mut ctx = claim_ctx(data, RENT + 500);
    ctx.claim_cooldown.data.last_claimed_at = -7;
    assert_eq!(process_claim_campaign(&mut ctx, 0, 1, RENT, 5), Ok(()));
}

#[test]
fn funded_campaign_pays_one_bounty_on_confirm() {
    let mut create = CreateCampaign {
        campaign_account: Account { key: campaign_key(), lamports: RENT, data: campaign(1, 1) },
        publisher_account: Account { key: publisher_key(), lamports: 0, data: publisher() },
        authority: Signer { key: publisher_wallet(), lamports: 10_000 },
        bumps: CreateCampaignBumps { campaign_account: 253 },
    };
    assert_eq!(
        process_create_campaign(
            &mut create,
            1,
            vec!["QmFirst".to_string()],
            100,
            5,
            0,
            no_filters(),
            60,
            30,
        ),
        Ok(())
    );
    assert_eq!(create.campaign_account.lamports, RENT + 500);
    assert_eq!(create.authority.lamports, 9_500);

    let mut claim = claim_ctx(create.campaign_account.data.clone(), create.campaign_account.lamports);
    assert_eq!(process_claim_campaign(&mut claim, 0, 1, RENT, 1_000), Ok(()));

    let mut confirm = confirm_ctx(&claim);
    confirm.publisher_account = create.publisher_account.clone();
    assert_eq!(process_confirm_play(&mut confirm, RENT, 1_100), Ok(()));

    assert_eq!(
        samizdat::escrow::spendable_balance(confirm.campaign_account.lamports, RENT),
        400
    );
    assert_eq!(confirm.campaign_account.lamports, RENT + 400);
    assert_eq!(confirm.campaign_account.data.plays_completed, 1);
    assert_eq!(confirm.campaign_account.data.plays_remaining, 4);
    assert_eq!(confirm.node_account.data.total_earnings, 100);
    assert_eq!(confirm.node_account.data.total_plays, 1);
    assert_eq!(confirm.publisher_account.data.total_spent, 100);
    assert_eq!(confirm.publisher_account.data.total_campaigns, 1);
    assert_eq!(confirm.authority.lamports, 150);
    assert_eq!(confirm.play_record.data.status, PlayStatus::Paid);
    assert_eq!(confirm.play_record.data.confirmed_at, 1_100);
    assert_eq!(confirm.play_record.data.payment_amount, 100);
    assert_eq!(confirm.play_record.data.claimed_at, 1_000);
}

#[test]
fn late_confirm_fails_and_timeout_restores_the_play() {
    let mut claim = claim_ctx(campaign(100, 5), RENT + 500);
    assert_eq!(process_claim_campaign(&mut claim, 0, 1, RENT, 0), Ok(()));
    assert_eq!(claim.campaign_account.data.plays_remaining, 4);

    let mut confirm = confirm_ctx(&claim);
    let before = confirm.clone();
    assert_eq!(process_confirm_play(&mut confirm, RENT, 301), Err(SamizdatError::TimeoutExpired));
    assert_eq!(confirm, before);

    let mut timeout = timeout_ctx(&claim);
    assert_eq!(process_timeout_play(&mut timeout, 301), Ok(()));
    assert_eq!(timeout.campaign_account.data.plays_remaining, 5);
    assert_eq!(timeout.campaign_account.data.plays_completed, 0);
    assert_eq!(timeout.campaign_account.lamports, RENT + 500);
    assert_eq!(timeout.play_record.data.status, PlayStatus::TimedOut);
    assert_eq!(timeout.play_record.data.payment_amount, 0);
    assert_eq!(timeout.play_record.data.confirmed_at, 0);
}

#[test]
fn the_window_closes_after_its_last_second() {
    let mut claim = claim_ctx(campaign(100, 5), RENT + 500);
    assert_eq!(process_claim_campaign(&mut claim, 0, 1, RENT, 5_000), Ok(()));

    let mut timeout = timeout_ctx(&claim);
    let before = timeout.clone();
    assert_eq!(process_timeout_play(&mut timeout, 5_000), Err(SamizdatError::TimeoutNotExpired));
    assert_eq!(process_timeout_play(&mut timeout, 5_300), Err(SamizdatError::TimeoutNotExpired));
    assert_eq!(timeout, before);

    let mut confirm = confirm_ctx(&claim);
    assert_eq!(process_confirm_play(&mut confirm, RENT, 5_300), Ok(()));

    let mut confirm = confirm_ctx(&claim);
    assert_eq!(process_confirm_play(&mut confirm, RENT, 5_301), Err(SamizdatError::TimeoutExpired));
    assert_eq!(process_timeout_play(&mut timeout, 5_301), Ok(()));
}

#[test]
fn a_window_that_leaves_the_range_of_time_never_closes() {
    let mut claim = claim_ctx(campaign(100, 5), RENT + 500);
    assert_eq!(process_claim_campaign(&mut claim, 0, 1, RENT, i64::MAX - 10), Ok(()));
    let mut timeout = timeout_ctx(&claim);
    assert_eq!(
        process_timeout_play(&mut timeout, i64::MAX),
        Err(SamizdatError::TimeoutNotExpired)
    );
    let mut confirm = confirm_ctx(&claim);
    assert_eq!(process_confirm_play(&mut confirm, RENT, i64::MAX), Ok(()));
}

#[test]
fn second_confirm_fails_with_invalid_play_status() {
    let mut claim = claim_ctx(campaign(100, 5), RENT + 500);
    assert_eq!(process_claim_campaign(&mut claim, 0, 1, RENT, 1_000), Ok(()));
    let mut confirm = confirm_ctx(&claim);
    assert_eq!(process_confirm_play(&mut confirm, RENT, 1_001), Ok(()));
    let paid = confirm.clone();
    assert_eq!(process_confirm_play(&mut confirm, RENT, 1_002), Err(SamizdatError::InvalidPlayStatus));
    assert_eq!(confirm, paid);
    assert_eq!(process_confirm_play(&mut confirm, RENT, 9_999), Err(SamizdatError::InvalidPlayStatus));
    assert_eq!(confirm.authority.lamports, 150);
}

#[test]
fn resolved_records_are_not_resolved_again() {
    let mut claim = claim_ctx(campaign(100, 5), RENT + 500);
    assert_eq!(process_claim_campaign(&mut claim, 0, 1, RENT, 1_000), Ok(()));

    let mut confirm = confirm_ctx(&claim);
    assert_eq!(process_confirm_play(&mut confirm, RENT, 1_001), Ok(()));
    let mut timeout = TimeoutPlay {
        play_record: confirm.play_record.clone(),
        campaign_account: confirm.campaign_account.clone(),
    };
    assert_eq!(process_timeout_play(&mut timeout, 2_000), Err(SamizdatError::InvalidPlayStatus));

    let mut timeout = timeout_ctx(&claim);
    assert_eq!(process_timeout_play(&mut timeout, 2_000), Ok(()));
    let done = timeout.clone();
    assert_eq!(process_timeout_play(&mut timeout, 3_000), Err(SamizdatError::InvalidPlayStatus));
    assert_eq!(timeout, done);
    let mut confirm = confirm_ctx(&claim);
    confirm.play_record = timeout.play_record.clone();
    assert_eq!(process_confirm_play(&mut confirm, RENT, 1_001), Err(SamizdatError::InvalidPlayStatus));
}

#[test]
fn confirm_checks_that_the_records_belong_together() {
    let mut claim = claim_ctx(campaign(100, 5), RENT + 500);
    assert_eq!(process_claim_campaign(&mut claim, 0, 1, RENT, 1_000), Ok(()));

    let mut ctx = confirm_ctx(&claim);
    ctx.campaign_account.key = addr(80);
    let before = ctx.clone();
    assert_eq!(process_confirm_play(&mut ctx, RENT, 1_001), Err(SamizdatError::InvalidCampaignId));
    assert_eq!(ctx, before);

    let mut ctx = confirm_ctx(&claim);
    ctx.node_account.key = addr(81);
    assert_eq!(process_confirm_play(&mut ctx, RENT, 1_001), Err(SamizdatError::Unauthorized));

    let mut ctx = confirm_ctx(&claim);
    ctx.publisher_account.key = addr(82);
    assert_eq!(process_confirm_play(&mut ctx, RENT, 1_001), Err(SamizdatError::PublisherMismatch));

    let mut ctx = confirm_ctx(&claim);
    ctx.authority.key = addr(83);
    let before = ctx.clone();
    assert_eq!(process_confirm_play(&mut ctx, RENT, 1_001), Err(SamizdatError::Unauthorized));
    assert_eq!(ctx, before);
}

#[test]
fn timeout_needs_no_caller_but_the_right_campaign() {
    let mut claim = claim_ctx(campaign(100, 5), RENT + 500);
    assert_eq!(process_claim_campaign(&mut claim, 0, 1, RENT, 1_000), Ok(()));
    let mut ctx = timeout_ctx(&claim);
    ctx.campaign_account.key = addr(80);
    let before = ctx.clone();
    assert_eq!(process_timeout_play(&mut ctx, 2_000), Err(SamizdatError::InvalidCampaignId));
    assert_eq!(ctx, before);
}

#[test]
fn confirm_fails_closed_on_every_overflow() {
    let mut claim = claim_ctx(campaign(100, 5), RENT + 500);
    assert_eq!(process_claim_campaign(&mut claim, 0, 1, RENT, 1_000), Ok(()));

    let mut ctx = confirm_ctx(&claim);
    ctx.campaign_account.lamports = 99;
    let before = ctx.clone();
    assert_eq!(process_confirm_play(&mut ctx, RENT, 1_001), Err(SamizdatError::ArithmeticOverflow));
    assert_eq!(ctx, before);

    let mut ctx = confirm_ctx(&claim);
    ctx.authority.lamports = u64::MAX - 99;
    let before = ctx.clone();
    assert_eq!(process_confirm_play(&mut ctx, RENT, 1_001), Err(SamizdatError::ArithmeticOverflow));
    assert_eq!(ctx, before);

    let mut ctx = confirm_ctx(&claim);
    ctx.campaign_account.data.plays_completed = u64::MAX;
    let before = ctx.clone();
    assert_eq!(process_confirm_play(&mut ctx, RENT, 1_001), Err(SamizdatError::ArithmeticOverflow));
    assert_eq!(ctx, before);

    let mut ctx = confirm_ctx(&claim);
    ctx.node_account.data.total_plays = u64::MAX;
    let before = ctx.clone();
    assert_eq!(process_confirm_play(&mut ctx, RENT, 1_001), Err(SamizdatError::ArithmeticOverflow));
    assert_eq!(ctx, before);

    let mut ctx = confirm_ctx(&claim);
    ctx.node_account.data.total_earnings = u64::MAX - 99;
    let before = ctx.clone();
    assert_eq!(process_confirm_play(&mut ctx, RENT, 1_001), Err(SamizdatError::ArithmeticOverflow));
    assert_eq!(ctx, before);

    let mut ctx = confirm_ctx(&claim);
    ctx.publisher_account.data.total_spent = u64::MAX - 99;
    let before = ctx.clone();
    assert_eq!(process_confirm_play(&mut ctx, RENT, 1_001), Err(SamizdatError::ArithmeticOverflow));
    assert_eq!(ctx, before);

    let mut ctx = confirm_ctx(&claim);
    ctx.publisher_account.data.total_spent = u64::MAX - 100;
    ctx.node_account.data.total_earnings = u64::MAX - 100;
    ctx.authority.lamports = u64::MAX - 100;
    assert_eq!(process_confirm_play(&mut ctx, RENT, 1_001), Ok(()));
    assert_eq!(ctx.publisher_account.data.total_spent, u64::MAX);
    assert_eq!(ctx.node_account.data.total_earnings, u64::MAX);
    assert_eq!(ctx.authority.lamports, u64::MAX);
}

#[test]
fn confirm_never_takes_from_the_reserve() {
    let mut claim = claim_ctx(campaign(100, 5), RENT + 500);
    assert_eq!(process_claim_campaign(&mut claim, 0, 1, RENT, 1_000), Ok(()));

    let mut ctx = confirm_ctx(&claim);
    ctx.campaign_account.lamports = 2_050;
    let before = ctx.clone();
    assert_eq!(
        process_confirm_play(&mut ctx, 2_000, 1_100),
        Err(SamizdatError::ArithmeticOverflow)
    );
    assert_eq!(ctx, before);
    assert_eq!(ctx.campaign_account.lamports, 2_050);
    assert_eq!(ctx.authority.lamports, 50);
    assert_eq!(ctx.play_record.data.status, PlayStatus::Claimed);

    ctx.campaign_account.lamports = 2_099;
    assert_eq!(
        process_confirm_play(&mut ctx, 2_000, 1_100),
        Err(SamizdatError::ArithmeticOverflow)
    );
    ctx.campaign_account.lamports = 1_500;
    assert_eq!(
        process_confirm_play(&mut ctx, 2_000, 1_100),
        Err(SamizdatError::ArithmeticOverflow)
    );

    ctx.campaign_account.lamports = 2_100;
    assert_eq!(process_confirm_play(&mut ctx, 2_000, 1_100), Ok(()));
    assert_eq!(ctx.campaign_account.lamports, 2_000);
    assert_eq!(samizdat::escrow::spendable_balance(ctx.campaign_account.lamports, 2_000), 0);
    assert_eq!(ctx.authority.lamports, 150);
    assert_eq!(ctx.play_record.data.status, PlayStatus::Paid);
}

#[test]
fn a_funded_campaign_waits_for_its_publisher() {
    let mut data = campaign(100, 5);
    data.status = CampaignStatus::Depleted;
    let mut fund = FundCampaign {
        campaign_account: Account { key: campaign_key(), lamports: RENT, data },
        publisher_account: Account { key: publisher_key(), lamports: 0, data: publisher() },
        authority: Signer { key: publisher_wallet(), lamports: 1_000 },
    };
    assert_eq!(process_fund_campaign(&mut fund, 500), Ok(()));
    assert_eq!(fund.campaign_account.data.status, CampaignStatus::Paused);

    let mut claim = claim_ctx(fund.campaign_account.data.clone(), fund.campaign_account.lamports);
    let before = claim.clone();
    assert_eq!(
        process_claim_campaign(&mut claim, 0, 1, RENT, 1_000),
        Err(SamizdatError::CampaignNotActive)
    );
    assert_eq!(claim, before);

    claim.campaign_account.data.status = CampaignStatus::Active;
    assert_eq!(process_claim_campaign(&mut claim, 0, 1, RENT, 1_000), Ok(()));
}

#[test]
fn timeout_fails_closed_when_the_count_is_full() {
    let mut claim = claim_ctx(campaign(100, 5), RENT + 500);
    assert_eq!(process_claim_campaign(&mut claim, 0, 1, RENT, 1_000), Ok(()));
    let mut ctx = timeout_ctx(&claim);
    ctx.campaign_account.data.plays_remaining = u64::MAX;
    let before = ctx.clone();
    assert_eq!(process_timeout_play(&mut ctx, 2_000), Err(SamizdatError::ArithmeticOverflow));
    assert_eq!(ctx, before);
}

#[test]
fn every_play_stays_accounted_for() {
    let total: u64 = 3;
    let mut data = campaign(100, total);
    data.claim_cooldown = 0;
    let mut lamports = RENT + 300;
    let mut cooldown = blank_cooldown();
    let mut records: Vec<PlayRecord> = vec![];
    let accounted = |data: &CampaignAccount, records: &[PlayRecord]| {
        data.plays_remaining + data.plays_completed + open_claims(records, campaign_key())
    };
    let solvent = |data: &CampaignAccount, lamports: u64, records: &[PlayRecord]| {
        samizdat::escrow::spendable_balance(lamports, RENT)
            >= data.bounty_per_play * (data.plays_remaining + open_claims(records, campaign_key()))
    };
    assert_eq!(accounted(&data, &records), total);
    assert!(solvent(&data, lamports, &records));

    for nonce in 0..3 {
        let mut ctx = claim_ctx(data.clone(), lamports);
        ctx.claim_cooldown.data = cooldown;
        assert_eq!(process_claim_campaign(&mut ctx, 0, nonce, RENT, 100 + nonce), Ok(()));
        data = ctx.campaign_account.data.clone();
        cooldown = ctx.claim_cooldown.data;
        records.push(ctx.play_record.data);
        assert_eq!(accounted(&data, &records), total);
        assert!(solvent(&data, lamports, &records));
    }
    assert_eq!(data.plays_remaining, 0);
    assert_eq!(open_claims(&records, campaign_key()), 3);

    let mut ctx = claim_ctx(data.clone(), lamports);
    ctx.claim_cooldown.data = cooldown;
    assert_eq!(
        process_claim_campaign(&mut ctx, 0, 9, RENT, 200),
        Err(SamizdatError::NoPlaysRemaining)
    );

    let mut confirm = ConfirmPlay {
        play_record: Account { key: record_key(), lamports: 0, data: records[0] },
        campaign_account: Account { key: campaign_key(), lamports, data: data.clone() },
        publisher_account: Account { key: publisher_key(), lamports: 0, data: publisher() },
        node_account: Account { key: node_key(), lamports: 0, data: node() },
        authority: Signer { key: node_wallet(), lamports: 0 },
    };
    assert_eq!(process_confirm_play(&mut confirm, RENT, 150), Ok(()));
    data = confirm.campaign_account.data.clone();
    lamports = confirm.campaign_account.lamports;
    records[0] = confirm.play_record.data;
    assert_eq!(accounted(&data, &records), total);
    assert!(solvent(&data, lamports, &records));

    let mut timeout = TimeoutPlay {
        play_record: Account { key: record_key(), lamports: 0, data: records[1] },
        campaign_account: Account { key: campaign_key(), lamports, data: data.clone() },
    };
    assert_eq!(process_timeout_play(&mut timeout, 1_000), Ok(()));
    data = timeout.campaign_account.data.clone();
    records[1] = timeout.play_record.data;
    assert_eq!(accounted(&data, &records), total);
    assert!(solvent(&data, lamports, &records));

    assert_eq!(data.plays_remaining, 1);
    assert_eq!(data.plays_completed, 1);
    assert_eq!(open_claims(&records, campaign_key()), 1);
    assert_eq!(lamports, RENT + 200);
}

#[test]
fn entry_points_do_what_the_operations_do() {
    let mut by_entry = claim_ctx(campaign(100, 5), RENT + 500);
    let mut by_operation = by_entry.clone();
    assert_eq!(
        samizdat::claim_campaign(&mut by_entry, 1, 4, RENT, 1_000),
        process_claim_campaign(&mut by_operation, 1, 4, RENT, 1_000)
    );
    assert_eq!(by_entry, by_operation);

    let mut confirm_entry = confirm_ctx(&by_entry);
    let mut confirm_operation = confirm_entry.clone();
    assert_eq!(
        samizdat::confirm_play(&mut confirm_entry, RENT, 1_300),
        process_confirm_play(&mut confirm_operation, RENT, 1_300)
    );
    assert_eq!(confirm_entry, confirm_operation);
    assert_eq!(confirm_entry.play_record.data.status, PlayStatus::Paid);

    let mut timeout_entry = timeout_ctx(&by_entry);
    let mut timeout_operation = timeout_entry.clone();
    assert_eq!(
        samizdat::timeout_play(&mut timeout_entry, 1_301),
        process_timeout_play(&mut timeout_operation, 1_301)
    );
    assert_eq!(timeout_entry, timeout_operation);
    assert_eq!(timeout_entry.play_record.data.status, PlayStatus::TimedOut);
}
