use crypto_fund_me::{
    build_jupiter_swap_data, claim_refund, convert_and_payout, create_campaign, donate,
    finalize_campaign, get_token_usd_value, Address, CampaignId, Donation, DonationId, ErrorCode,
    Lifecycle, Outcome, PayoutStep, RefundTransfer, Registry, VaultBalance, MAX_DESCRIPTION_LEN,
    MAX_NAME_LEN,
};

const T: i64 = 1_700_000_000;

fn addr(b: u8) -> Address {
    Address::new([b; 32])
}

fn creator() -> Address {
    addr(1)
}

fn donor() -> Address {
    addr(2)
}

fn asset_x() -> Address {
    addr(10)
}

fn asset_y() -> Address {
    addr(11)
}

fn school() -> CampaignId {
    CampaignId { creator: creator(), name: "school".to_string() }
}

/// A registry with one campaign of goal 1000 and deadline T+100, target X.
fn one_campaign() -> Registry {
    let mut reg = Registry::new();
    let id = create_campaign(
        &mut reg,
        creator(),
        "school".to_string(),
        "a new roof".to_string(),
        1000,
        T + 100,
        asset_x(),
        T,
    );
    assert_eq!(id, Ok(school()));
    reg
}

/// Donates `worth` units of an asset with no decimals priced at one unit,
/// with the campaign's next sequence number.
fn give(reg: &mut Registry, who: Address, asset: Address, worth: u64, now: i64) -> Result<DonationId, ErrorCode> {
    let sequence = reg.campaigns[0].donation_count;
    donate(reg, &school(), who, asset, worth, sequence, 1, 0, now)
}

fn donation_id(who: Address, sequence: u64) -> DonationId {
    DonationId { campaign: school(), donor: who, sequence }
}

#[test]
fn scenario_success_path() {
    let mut reg = one_campaign();
    assert_eq!(give(&mut reg, donor(), asset_x(), 600, T + 1), Ok(donation_id(donor(), 0)));
    assert_eq!(reg.campaigns[0].outcome, Outcome::Pending);
    assert_eq!(give(&mut reg, addr(3), asset_y(), 500, T + 2), Ok(donation_id(addr(3), 1)));
    assert_eq!(reg.campaigns[0].total_raised_usd, 1100);
    assert_eq!(reg.campaigns[0].outcome, Outcome::Successful);
    assert_eq!(finalize_campaign(&mut reg, &school(), creator(), T + 101), Ok(()));
    assert_eq!(reg.campaigns[0].lifecycle_state, Lifecycle::Closed);
    assert_eq!(reg.campaigns[0].outcome, Outcome::Successful);
    assert_eq!(claim_refund(&mut reg, &donation_id(donor(), 0), donor()), Err(ErrorCode::CampaignSuccessful));
    assert_eq!(claim_refund(&mut reg, &donation_id(addr(3), 1), addr(3)), Err(ErrorCode::CampaignSuccessful));
    assert_eq!(reg.campaigns[0].total_raised_usd, 1100);
}

#[test]
fn scenario_refund_path() {
    let mut reg = one_campaign();
    assert_eq!(give(&mut reg, donor(), asset_y(), 400, T + 1), Ok(donation_id(donor(), 0)));
    assert_eq!(finalize_campaign(&mut reg, &school(), creator(), T + 101), Ok(()));
    assert_eq!(reg.campaigns[0].outcome, Outcome::Failed);
    assert_eq!(
        claim_refund(&mut reg, &donation_id(donor(), 0), donor()),
        Ok(RefundTransfer { token_mint: asset_y(), amount: 400 })
    );
    assert!(reg.donations[0].is_refunded);
    assert_eq!(reg.campaigns[0].total_raised_usd, 0);
    assert_eq!(claim_refund(&mut reg, &donation_id(donor(), 0), donor()), Err(ErrorCode::AlreadyRefunded));
    assert!(reg.donations[0].is_refunded);
}

#[test]
fn scenario_finalize_by_stranger() {
    let mut reg = one_campaign();
    assert_eq!(
        finalize_campaign(&mut reg, &school(), addr(9), T + 101),
        Err(ErrorCode::Unauthorized)
    );
    assert_eq!(reg.campaigns[0].lifecycle_state, Lifecycle::Active);
}

#[test]
fn campaign_id_depends_on_key_alone() {
    let mut reg = Registry::new();
    let other = create_campaign(&mut reg, addr(5), "park".to_string(), String::new(), 10, T + 5, asset_x(), T);
    assert_eq!(other, Ok(CampaignId { creator: addr(5), name: "park".to_string() }));
    let id = create_campaign(&mut reg, creator(), "school".to_string(), "x".to_string(), 77, T + 9, asset_y(), T + 1);
    assert_eq!(id, Ok(school()));
    assert_eq!(donate(&mut reg, &school(), donor(), asset_x(), 30, 0, 1, 0, T + 2), Ok(donation_id(donor(), 0)));
    assert_eq!(reg.campaigns[1].total_raised_usd, 30);
    assert_eq!(reg.campaigns[0].total_raised_usd, 0);
    let unknown = CampaignId { creator: addr(5), name: "school".to_string() };
    assert_eq!(donate(&mut reg, &unknown, donor(), asset_x(), 30, 0, 1, 0, T + 2), Err(ErrorCode::CampaignNotFound));
}

#[test]
fn retried_donation_is_refused() {
    let mut reg = one_campaign();
    assert_eq!(donate(&mut reg, &school(), donor(), asset_x(), 50, 0, 1, 0, T + 1), Ok(donation_id(donor(), 0)));
    assert_eq!(donate(&mut reg, &school(), donor(), asset_x(), 50, 0, 1, 0, T + 1), Err(ErrorCode::DuplicateDonation));
    assert_eq!(donate(&mut reg, &school(), donor(), asset_x(), 50, 5, 1, 0, T + 1), Err(ErrorCode::DuplicateDonation));
    assert_eq!(reg.donations.len(), 1);
    assert_eq!(reg.campaigns[0].total_raised_usd, 50);
    assert_eq!(reg.campaigns[0].donation_count, 1);
    assert_eq!(donate(&mut reg, &school(), donor(), asset_x(), 50, 1, 1, 0, T + 1), Ok(donation_id(donor(), 1)));
    assert_eq!(reg.donations[1].sequence, 1);
}

#[test]
fn donation_deadline_boundary() {
    let mut reg = one_campaign();
    assert_eq!(give(&mut reg, donor(), asset_x(), 5, T + 99), Ok(donation_id(donor(), 0)));
    assert_eq!(give(&mut reg, donor(), asset_x(), 5, T + 100), Err(ErrorCode::CampaignEnded));
    assert_eq!(reg.donations.len(), 1);
    assert_eq!(reg.campaigns[0].total_raised_usd, 5);
}

#[test]
fn donation_overflow_leaves_total() {
    let mut reg = one_campaign();
    assert!(give(&mut reg, donor(), asset_x(), u64::MAX - 10, T + 1).is_ok());
    assert_eq!(give(&mut reg, donor(), asset_x(), 11, T + 2), Err(ErrorCode::ArithmeticOverflow));
    assert_eq!(reg.campaigns[0].total_raised_usd, u64::MAX - 10);
    assert_eq!(reg.donations.len(), 1);
    assert!(give(&mut reg, donor(), asset_x(), 10, T + 2).is_ok());
    assert_eq!(reg.campaigns[0].total_raised_usd, u64::MAX);
}

#[test]
fn donation_value_overflow() {
    let mut reg = one_campaign();
    assert_eq!(
        donate(&mut reg, &school(), donor(), asset_x(), u64::MAX, 0, 2, 0, T + 1),
        Err(ErrorCode::ArithmeticOverflow)
    );
    assert_eq!(reg.campaigns[0].total_raised_usd, 0);
}

#[test]
fn token_value_formula() {
    // 2.5 tokens of 6 decimals at one dollar: 250 cents.
    assert_eq!(get_token_usd_value(2_500_000, 100, 6), Ok(250));
    // Rounded toward zero.
    assert_eq!(get_token_usd_value(1_999, 100, 3), Ok(199));
    assert_eq!(get_token_usd_value(7, 3, 0), Ok(21));
    assert_eq!(get_token_usd_value(0, 100, 9), Ok(0));
    assert_eq!(get_token_usd_value(1, 100, 19), Ok(0));
    assert_eq!(get_token_usd_value(1, 100, 20), Err(ErrorCode::ArithmeticOverflow));
    assert_eq!(get_token_usd_value(u64::MAX, 100, 0), Err(ErrorCode::ArithmeticOverflow));
}

#[test]
fn donation_records_value_and_time() {
    let mut reg = one_campaign();
    assert!(donate(&mut reg, &school(), donor(), asset_y(), 3_000_000, 0, 150, 6, T + 7).is_ok());
    let d = reg.donations[0];
    assert_eq!(d.donor, donor());
    assert_eq!(d.campaign, 0);
    assert_eq!(d.sequence, 0);
    assert_eq!(d.token_mint, asset_y());
    assert_eq!(d.amount, 3_000_000);
    assert_eq!(d.usd_value, 450);
    assert_eq!(d.timestamp, T + 7);
    assert!(!d.is_refunded);
    assert_eq!(reg.campaigns[0].total_raised_usd, 450);
}

#[test]
fn donation_refusals() {
    let mut reg = one_campaign();
    assert_eq!(give(&mut reg, donor(), asset_x(), 0, T + 1), Err(ErrorCode::InvalidAmount));
    assert_eq!(finalize_campaign(&mut reg, &school(), creator(), T + 100), Ok(()));
    assert_eq!(give(&mut reg, donor(), asset_x(), 5, T + 101), Err(ErrorCode::CampaignInactive));
    assert_eq!(reg.donations.len(), 0);
}

#[test]
fn creation_refusals() {
    let mut reg = one_campaign();
    let make = |reg: &mut Registry, who: Address, name: &str, desc: &str, goal: u64, deadline: i64| {
        create_campaign(reg, who, name.to_string(), desc.to_string(), goal, deadline, asset_x(), T)
    };
    assert_eq!(make(&mut reg, creator(), "other", "", 0, T + 5), Err(ErrorCode::InvalidGoal));
    assert_eq!(make(&mut reg, creator(), "other", "", 10, T), Err(ErrorCode::InvalidDeadline));
    let long_name = "n".repeat(MAX_NAME_LEN + 1);
    assert_eq!(make(&mut reg, creator(), &long_name, "", 10, T + 5), Err(ErrorCode::NameTooLong));
    // Sixteen two-byte characters fill the 32 bytes; seventeen do not fit.
    assert_eq!(make(&mut reg, creator(), &"é".repeat(17), "", 10, T + 5), Err(ErrorCode::NameTooLong));
    let long_desc = "d".repeat(MAX_DESCRIPTION_LEN + 1);
    assert_eq!(make(&mut reg, creator(), "other", &long_desc, 10, T + 5), Err(ErrorCode::DescriptionTooLong));
    assert_eq!(make(&mut reg, creator(), "school", "again", 10, T + 5), Err(ErrorCode::DuplicateCampaign));
    assert_eq!(reg.campaigns.len(), 1);
    let full_name = "n".repeat(MAX_NAME_LEN);
    assert!(make(&mut reg, creator(), &full_name, "", 10, T + 5).is_ok());
    assert!(make(&mut reg, creator(), &"é".repeat(16), "", 10, T + 5).is_ok());
    assert!(make(&mut reg, addr(5), "school", "same name", 10, T + 5).is_ok());
    assert_eq!(reg.campaigns[3].total_raised_usd, 0);
    assert_eq!(reg.campaigns[3].lifecycle_state, Lifecycle::Active);
    assert_eq!(reg.campaigns[3].outcome, Outcome::Pending);
    assert_eq!(reg.campaigns[3].donation_count, 0);
}

#[test]
fn finalize_refusals() {
    let mut reg = one_campaign();
    let missing = CampaignId { creator: creator(), name: "park".to_string() };
    assert_eq!(finalize_campaign(&mut reg, &missing, creator(), T + 101), Err(ErrorCode::CampaignNotFound));
    assert_eq!(finalize_campaign(&mut reg, &school(), creator(), T + 99), Err(ErrorCode::CampaignStillRunning));
    assert_eq!(finalize_campaign(&mut reg, &school(), creator(), T + 100), Ok(()));
    assert_eq!(reg.campaigns[0].outcome, Outcome::Failed);
    assert_eq!(finalize_campaign(&mut reg, &school(), creator(), T + 102), Err(ErrorCode::CampaignInactive));
    assert_eq!(finalize_campaign(&mut reg, &school(), addr(9), T + 102), Err(ErrorCode::CampaignInactive));
}

#[test]
fn finalize_decides_from_total() {
    let mut reg = one_campaign();
    assert!(give(&mut reg, donor(), asset_x(), 1000, T + 1).is_ok());
    assert_eq!(finalize_campaign(&mut reg, &school(), creator(), T + 100), Ok(()));
    assert_eq!(reg.campaigns[0].outcome, Outcome::Successful);
}

#[test]
fn refund_refusals() {
    let mut reg = one_campaign();
    assert!(give(&mut reg, donor(), asset_x(), 100, T + 1).is_ok());
    assert_eq!(claim_refund(&mut reg, &donation_id(donor(), 0), donor()), Err(ErrorCode::CampaignStillActive));
    let missing = DonationId { campaign: CampaignId { creator: addr(8), name: "school".to_string() }, donor: donor(), sequence: 0 };
    assert_eq!(claim_refund(&mut reg, &missing, donor()), Err(ErrorCode::CampaignNotFound));
    assert_eq!(claim_refund(&mut reg, &donation_id(donor(), 4), donor()), Err(ErrorCode::DonationNotFound));
    assert_eq!(claim_refund(&mut reg, &donation_id(addr(7), 0), addr(7)), Err(ErrorCode::DonationNotFound));
    assert_eq!(finalize_campaign(&mut reg, &school(), creator(), T + 100), Ok(()));
    assert_eq!(claim_refund(&mut reg, &donation_id(donor(), 0), addr(7)), Err(ErrorCode::NotDonor));
    assert!(!reg.donations[0].is_refunded);
    assert_eq!(reg.campaigns[0].total_raised_usd, 100);
    assert!(claim_refund(&mut reg, &donation_id(donor(), 0), donor()).is_ok());
    assert_eq!(claim_refund(&mut reg, &donation_id(donor(), 0), addr(7)), Err(ErrorCode::NotDonor));
}

#[test]
fn refund_of_one_leaves_others() {
    let mut reg = one_campaign();
    assert!(give(&mut reg, donor(), asset_x(), 100, T + 1).is_ok());
    assert!(give(&mut reg, addr(3), asset_y(), 250, T + 2).is_ok());
    assert_eq!(finalize_campaign(&mut reg, &school(), creator(), T + 100), Ok(()));
    assert_eq!(
        claim_refund(&mut reg, &donation_id(addr(3), 1), addr(3)),
        Ok(RefundTransfer { token_mint: asset_y(), amount: 250 })
    );
    assert_eq!(reg.campaigns[0].total_raised_usd, 100);
    assert!(!reg.donations[0].is_refunded);
    assert_eq!(convert_and_payout(&reg, &school(), creator(), &vec![]), Err(ErrorCode::CampaignUnsuccessful));
    assert_eq!(convert_and_payout(&reg, &school(), addr(9), &vec![]), Err(ErrorCode::CampaignUnsuccessful));
}

#[test]
fn payout_plan_per_vault() {
    let mut reg = one_campaign();
    assert!(give(&mut reg, donor(), asset_x(), 700, T + 1).is_ok());
    assert!(give(&mut reg, donor(), asset_y(), 400, T + 2).is_ok());
    let vaults = vec![
        VaultBalance { asset: asset_x(), amount: 700 },
        VaultBalance { asset: addr(12), amount: 0 },
        VaultBalance { asset: asset_y(), amount: 400 },
    ];
    assert_eq!(convert_and_payout(&reg, &school(), creator(), &vaults), Err(ErrorCode::CampaignStillActive));
    assert_eq!(finalize_campaign(&mut reg, &school(), creator(), T + 100), Ok(()));
    assert_eq!(convert_and_payout(&reg, &school(), donor(), &vaults), Err(ErrorCode::Unauthorized));
    let missing = CampaignId { creator: donor(), name: "school".to_string() };
    assert_eq!(convert_and_payout(&reg, &missing, creator(), &vaults), Err(ErrorCode::CampaignNotFound));
    assert_eq!(
        convert_and_payout(&reg, &school(), creator(), &vaults),
        Ok(vec![
            PayoutStep::Transfer { asset: asset_x(), amount: 700 },
            PayoutStep::Swap { asset_in: asset_y(), amount: 400, asset_out: asset_x() },
        ])
    );
}

#[test]
fn payout_twice_after_drain_is_empty() {
    let mut reg = one_campaign();
    assert!(give(&mut reg, donor(), asset_y(), 1200, T + 1).is_ok());
    assert_eq!(finalize_campaign(&mut reg, &school(), creator(), T + 100), Ok(()));
    let drained = vec![
        VaultBalance { asset: asset_x(), amount: 0 },
        VaultBalance { asset: asset_y(), amount: 0 },
    ];
    assert_eq!(convert_and_payout(&reg, &school(), creator(), &drained), Ok(vec![]));
    assert_eq!(convert_and_payout(&reg, &school(), creator(), &drained), Ok(vec![]));
}

#[test]
fn swap_data_is_fixed_tag() {
    assert_eq!(build_jupiter_swap_data(addr(1), addr(2), addr(3)), vec![0u8, 1, 2, 3]);
}

#[test]
fn address_comparison() {
    let a = addr(4);
    let mut bytes = [4u8; 32];
    assert!(a.same_as(&Address::new(bytes)));
    bytes[31] = 5;
    assert!(!a.same_as(&Address::new(bytes)));
}

#[test]
fn refund_beyond_total_is_refused() {
    let mut reg = one_campaign();
    assert_eq!(finalize_campaign(&mut reg, &school(), creator(), T + 100), Ok(()));
    reg.donations.push(Donation {
        donor: donor(),
        campaign: 0,
        sequence: 0,
        token_mint: asset_x(),
        amount: 5,
        usd_value: 5,
        timestamp: T + 1,
        is_refunded: false,
    });
    assert_eq!(claim_refund(&mut reg, &donation_id(donor(), 0), donor()), Err(ErrorCode::ArithmeticOverflow));
    assert!(!reg.donations[0].is_refunded);
}
