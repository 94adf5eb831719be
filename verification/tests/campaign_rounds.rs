use heartofblockchain::{
    create_campaign, donate, withdraw, Campaign, CampaignError, CreateCampaign, Donate, Donor,
    Pubkey, TokenAccount, Withdraw,
};

fn key(tag: u8) -> Pubkey {
    Pubkey::new_from_array([tag; 32])
}

const CREATOR: u8 = 1;
const MINT: u8 = 2;
const CAMPAIGN: u8 = 3;
const DONOR: u8 = 4;
const OTHER: u8 = 9;

fn new_campaign(target: u64) -> (Campaign, TokenAccount) {
    let mut ctx = CreateCampaign {
        campaign_key: key(CAMPAIGN),
        campaign: None,
        bump: 254,
        service_provider_token_account: None,
        creator: key(CREATOR),
        mint: key(MINT),
    };
    create_campaign(&mut ctx, "Well".to_string(), "A well for the village".to_string(), target)
        .unwrap();
    (ctx.campaign.unwrap(), ctx.service_provider_token_account.unwrap())
}

fn donation(campaign: Campaign, escrow: TokenAccount, funds: u64, record: Option<Donor>) -> Donate {
    Donate {
        campaign_key: key(CAMPAIGN),
        campaign,
        campaign_token_account: escrow,
        donor: key(DONOR),
        donor_token_account: TokenAccount { mint: key(MINT), owner: key(DONOR), amount: funds },
        donor_pda: record,
        donor_pda_bump: 7,
        mint: key(MINT),
    }
}

fn withdrawal(campaign: Campaign, escrow: TokenAccount, held: u64) -> Withdraw {
    Withdraw {
        campaign_key: key(CAMPAIGN),
        campaign,
        campaign_token_account: escrow,
        creator: key(CREATOR),
        creator_token_account: TokenAccount { mint: key(MINT), owner: key(CREATOR), amount: held },
        mint: key(MINT),
    }
}

#[test]
fn created_campaign_starts_empty() {
    let (campaign, escrow) = new_campaign(1000);
    assert_eq!(
        campaign,
        Campaign {
            creator: key(CREATOR),
            name: "Well".to_string(),
            description: "A well for the village".to_string(),
            target_amount: 1000,
            amount_donated: 0,
            mint: key(MINT),
            threshold_reached: false,
            bump: 254,
        }
    );
    assert_eq!(escrow, TokenAccount { mint: key(MINT), owner: key(CAMPAIGN), amount: 0 });
}

#[test]
fn threshold_flips_on_the_donation_that_reaches_the_target() {
    let (campaign, escrow) = new_campaign(1000);
    let mut ctx = donation(campaign, escrow, 5000, None);

    assert_eq!(donate(&mut ctx, 400), Ok(false));
    assert_eq!(ctx.campaign.amount_donated, 400);
    assert!(!ctx.campaign.threshold_reached);

    assert_eq!(donate(&mut ctx, 400), Ok(false));
    assert_eq!(ctx.campaign.amount_donated, 800);
    assert!(!ctx.campaign.threshold_reached);

    assert_eq!(donate(&mut ctx, 200), Ok(true));
    assert_eq!(ctx.campaign.amount_donated, 1000);
    assert!(ctx.campaign.threshold_reached);
    assert_eq!(ctx.campaign_token_account.amount, 1000);
    assert_eq!(ctx.donor_token_account.amount, 4000);
}

#[test]
fn round_trip_create_donate_withdraw_donate() {
    let (campaign, escrow) = new_campaign(1000);
    let mut giving = donation(campaign, escrow, 5000, None);
    assert_eq!(donate(&mut giving, 400), Ok(false));
    assert_eq!(donate(&mut giving, 400), Ok(false));
    assert_eq!(donate(&mut giving, 200), Ok(true));

    let mut taking = withdrawal(giving.campaign.clone(), giving.campaign_token_account, 30);
    assert_eq!(withdraw(&mut taking), Ok(1000));
    assert_eq!(taking.campaign_token_account.amount, 0);
    assert_eq!(taking.creator_token_account.amount, 1030);
    assert_eq!(taking.campaign.amount_donated, 0);
    assert!(!taking.campaign.threshold_reached);
    assert_eq!(taking.campaign.target_amount, 1000);
    assert_eq!(taking.campaign.creator, key(CREATOR));
    assert_eq!(taking.campaign.name, "Well");

    let mut again = donation(
        taking.campaign.clone(),
        taking.campaign_token_account,
        giving.donor_token_account.amount,
        giving.donor_pda,
    );
    assert_eq!(donate(&mut again, 1), Ok(false));
    assert_eq!(again.campaign.amount_donated, 1);
    assert_eq!(again.campaign_token_account.amount, 1);
    assert!(!again.campaign.threshold_reached);
    assert_eq!(again.donor_token_account.amount, 3999);
}

#[test]
fn total_is_sum_of_donations_less_what_withdrawals_took() {
    let (campaign, escrow) = new_campaign(300);
    let mut giving = donation(campaign, escrow, 10_000, None);
    assert_eq!(donate(&mut giving, 100), Ok(false));
    assert_eq!(donate(&mut giving, 250), Ok(true));
    assert_eq!(giving.campaign.amount_donated, 350);

    let mut taking = withdrawal(giving.campaign.clone(), giving.campaign_token_account, 0);
    assert_eq!(withdraw(&mut taking), Ok(350));

    let mut again = donation(
        taking.campaign.clone(),
        taking.campaign_token_account,
        giving.donor_token_account.amount,
        giving.donor_pda,
    );
    assert_eq!(donate(&mut again, 20), Ok(false));
    assert_eq!(donate(&mut again, 5), Ok(false));
    // 100 + 250 + 20 + 5 given, 350 taken out by the withdrawal
    assert_eq!(again.campaign.amount_donated, 100 + 250 + 20 + 5 - 350);
    assert_eq!(again.campaign_token_account.amount, 25);
    assert_eq!(again.donor_token_account.amount, 10_000 - 375);
}

#[test]
fn donations_past_the_target_do_not_cross_again() {
    let (campaign, escrow) = new_campaign(50);
    let mut ctx = donation(campaign, escrow, 1000, None);
    assert_eq!(donate(&mut ctx, 50), Ok(true));
    assert_eq!(donate(&mut ctx, 10), Ok(false));
    assert_eq!(donate(&mut ctx, 60), Ok(false));
    assert!(ctx.campaign.threshold_reached);
    assert_eq!(ctx.campaign.amount_donated, 120);
}

#[test]
fn threshold_is_crossed_once_in_each_round() {
    let (campaign, escrow) = new_campaign(10);
    let mut giving = donation(campaign, escrow, 1000, None);
    assert_eq!(donate(&mut giving, 9), Ok(false));
    assert_eq!(donate(&mut giving, 1), Ok(true));
    assert_eq!(donate(&mut giving, 1), Ok(false));
    let mut taking = withdrawal(giving.campaign.clone(), giving.campaign_token_account, 0);
    assert_eq!(withdraw(&mut taking), Ok(11));
    let mut again =
        donation(taking.campaign.clone(), taking.campaign_token_account, 989, giving.donor_pda);
    assert_eq!(donate(&mut again, 10), Ok(true));
    assert_eq!(donate(&mut again, 10), Ok(false));
    assert_eq!(again.campaign.amount_donated, 20);
    assert!(again.campaign.threshold_reached);
}

#[test]
fn single_donation_above_target_crosses() {
    let (campaign, escrow) = new_campaign(1000);
    let mut ctx = donation(campaign, escrow, 5000, None);
    assert_eq!(donate(&mut ctx, 1001), Ok(true));
    assert!(ctx.campaign.threshold_reached);
    assert_eq!(ctx.campaign.amount_donated, 1001);
}

#[test]
fn donor_record_is_created_then_accumulates() {
    let (campaign, escrow) = new_campaign(1000);
    let mut ctx = donation(campaign, escrow, 500, None);
    assert_eq!(donate(&mut ctx, 100), Ok(false));
    assert_eq!(
        ctx.donor_pda,
        Some(Donor { donor: key(DONOR), campaign: key(CAMPAIGN), amount_donated: 100, bump: 7 })
    );
    assert_eq!(donate(&mut ctx, 50), Ok(false));
    assert_eq!(
        ctx.donor_pda,
        Some(Donor { donor: key(DONOR), campaign: key(CAMPAIGN), amount_donated: 150, bump: 7 })
    );
}

#[test]
fn donor_record_outlives_withdrawal() {
    let (campaign, escrow) = new_campaign(120);
    let mut giving = donation(campaign, escrow, 500, None);
    assert_eq!(donate(&mut giving, 100), Ok(false));
    assert_eq!(donate(&mut giving, 50), Ok(true));
    let record = giving.donor_pda;
    assert_eq!(record.unwrap().amount_donated, 150);

    let mut taking = withdrawal(giving.campaign.clone(), giving.campaign_token_account, 0);
    assert_eq!(withdraw(&mut taking), Ok(150));
    assert_eq!(taking.campaign.amount_donated, 0);
    // the withdrawal has no hand on the donor's record
    assert_eq!(record.unwrap().amount_donated, 150);

    let mut again = donation(taking.campaign.clone(), taking.campaign_token_account, 350, record);
    assert_eq!(donate(&mut again, 25), Ok(false));
    assert_eq!(again.donor_pda.unwrap().amount_donated, 175);
    assert_eq!(again.campaign.amount_donated, 25);
}

#[test]
fn withdraw_before_threshold_is_refused() {
    let (campaign, escrow) = new_campaign(1000);
    let mut giving = donation(campaign, escrow, 5000, None);
    assert_eq!(donate(&mut giving, 999), Ok(false));
    let mut taking = withdrawal(giving.campaign.clone(), giving.campaign_token_account, 0);
    let before = taking.clone();
    assert_eq!(withdraw(&mut taking), Err(CampaignError::ThresholdNotReached));
    assert_eq!(taking, before);
}

#[test]
fn withdraw_from_fresh_campaign_is_refused() {
    let (campaign, escrow) = new_campaign(1);
    let mut taking = withdrawal(campaign, escrow, 0);
    assert_eq!(withdraw(&mut taking), Err(CampaignError::ThresholdNotReached));
}

#[test]
fn withdraw_by_stranger_is_unauthorized() {
    let (campaign, escrow) = new_campaign(100);
    let mut giving = donation(campaign, escrow, 5000, None);
    assert_eq!(donate(&mut giving, 100), Ok(true));
    let mut taking = withdrawal(giving.campaign.clone(), giving.campaign_token_account, 0);
    taking.creator = key(OTHER);
    taking.creator_token_account.owner = key(OTHER);
    let before = taking.clone();
    assert_eq!(withdraw(&mut taking), Err(CampaignError::Unauthorized));
    assert_eq!(taking, before);
    assert_eq!(taking.campaign_token_account.amount, 100);
}

#[test]
fn unauthorized_comes_before_threshold_not_reached() {
    let (campaign, escrow) = new_campaign(100);
    let mut taking = withdrawal(campaign, escrow, 0);
    taking.creator = key(OTHER);
    taking.mint = key(OTHER);
    assert_eq!(withdraw(&mut taking), Err(CampaignError::Unauthorized));
}

#[test]
fn withdraw_with_wrong_mint_is_refused() {
    let (campaign, escrow) = new_campaign(100);
    let mut giving = donation(campaign, escrow, 5000, None);
    assert_eq!(donate(&mut giving, 100), Ok(true));
    let mut taking = withdrawal(giving.campaign.clone(), giving.campaign_token_account, 0);
    taking.mint = key(OTHER);
    let before = taking.clone();
    assert_eq!(withdraw(&mut taking), Err(CampaignError::InvalidMint));
    assert_eq!(taking, before);
}

#[test]
fn withdraw_from_empty_escrow_is_refused() {
    let (mut campaign, escrow) = new_campaign(100);
    campaign.amount_donated = 100;
    campaign.threshold_reached = true;
    let mut taking = withdrawal(campaign, escrow, 0);
    let before = taking.clone();
    assert_eq!(withdraw(&mut taking), Err(CampaignError::NoFundsToWithdraw));
    assert_eq!(taking, before);
}

#[test]
fn withdraw_takes_the_escrow_balance_not_the_recorded_total() {
    let (mut campaign, mut escrow) = new_campaign(100);
    campaign.amount_donated = 100;
    campaign.threshold_reached = true;
    escrow.amount = 130;
    let mut taking = withdrawal(campaign, escrow, 1);
    assert_eq!(withdraw(&mut taking), Ok(130));
    assert_eq!(taking.creator_token_account.amount, 131);
    assert_eq!(taking.campaign_token_account.amount, 0);
    assert_eq!(taking.campaign.amount_donated, 0);
}

#[test]
fn withdraw_into_account_of_another_owner_is_refused() {
    let (campaign, escrow) = new_campaign(100);
    let mut giving = donation(campaign, escrow, 5000, None);
    assert_eq!(donate(&mut giving, 100), Ok(true));
    let mut taking = withdrawal(giving.campaign.clone(), giving.campaign_token_account, 0);
    taking.creator_token_account.owner = key(OTHER);
    let before = taking.clone();
    assert_eq!(withdraw(&mut taking), Err(CampaignError::AccountMismatch));
    assert_eq!(taking, before);
}

#[test]
fn withdraw_from_escrow_of_another_authority_is_refused() {
    let (campaign, escrow) = new_campaign(100);
    let mut giving = donation(campaign, escrow, 5000, None);
    assert_eq!(donate(&mut giving, 100), Ok(true));
    let mut taking = withdrawal(giving.campaign.clone(), giving.campaign_token_account, 0);
    taking.campaign_token_account.owner = key(OTHER);
    assert_eq!(withdraw(&mut taking), Err(CampaignError::AccountMismatch));
    assert_eq!(taking.campaign_token_account.amount, 100);
}

#[test]
fn withdraw_with_escrow_of_another_mint_is_refused() {
    let (campaign, escrow) = new_campaign(100);
    let mut giving = donation(campaign, escrow, 5000, None);
    assert_eq!(donate(&mut giving, 100), Ok(true));
    let mut taking = withdrawal(giving.campaign.clone(), giving.campaign_token_account, 0);
    taking.campaign_token_account.mint = key(OTHER);
    assert_eq!(withdraw(&mut taking), Err(CampaignError::InvalidMint));
    let mut taking = withdrawal(giving.campaign.clone(), giving.campaign_token_account, 0);
    taking.creator_token_account.mint = key(OTHER);
    assert_eq!(withdraw(&mut taking), Err(CampaignError::InvalidMint));
}

#[test]
fn withdraw_that_would_overflow_the_receiver_is_refused() {
    let (campaign, escrow) = new_campaign(100);
    let mut giving = donation(campaign, escrow, 5000, None);
    assert_eq!(donate(&mut giving, 100), Ok(true));
    let mut taking =
        withdrawal(giving.campaign.clone(), giving.campaign_token_account, u64::MAX - 99);
    let before = taking.clone();
    assert_eq!(withdraw(&mut taking), Err(CampaignError::Overflow));
    assert_eq!(taking, before);
    let mut taking =
        withdrawal(giving.campaign.clone(), giving.campaign_token_account, u64::MAX - 100);
    assert_eq!(withdraw(&mut taking), Ok(100));
    assert_eq!(taking.creator_token_account.amount, u64::MAX);
}

#[test]
fn donate_with_wrong_mint_is_refused_and_changes_nothing() {
    let (campaign, escrow) = new_campaign(1000);
    let mut ctx = donation(campaign, escrow, 500, None);
    assert_eq!(donate(&mut ctx, 100), Ok(false));
    ctx.mint = key(OTHER);
    let before = ctx.clone();
    assert_eq!(donate(&mut ctx, 100), Err(CampaignError::InvalidMint));
    assert_eq!(ctx, before);
    assert_eq!(ctx.campaign.amount_donated, 100);
    assert_eq!(ctx.campaign_token_account.amount, 100);
    assert_eq!(ctx.donor_pda.unwrap().amount_donated, 100);
}

#[test]
fn invalid_mint_comes_before_zero_amount() {
    let (campaign, escrow) = new_campaign(1000);
    let mut ctx = donation(campaign, escrow, 500, None);
    ctx.mint = key(OTHER);
    assert_eq!(donate(&mut ctx, 0), Err(CampaignError::InvalidMint));
}

#[test]
fn donate_from_account_of_another_mint_is_refused() {
    let (campaign, escrow) = new_campaign(1000);
    let mut ctx = donation(campaign, escrow, 500, None);
    ctx.donor_token_account.mint = key(OTHER);
    let before = ctx.clone();
    assert_eq!(donate(&mut ctx, 100), Err(CampaignError::InvalidMint));
    assert_eq!(ctx, before);
    let (campaign, escrow) = new_campaign(1000);
    let mut ctx = donation(campaign, escrow, 500, None);
    ctx.campaign_token_account.mint = key(OTHER);
    assert_eq!(donate(&mut ctx, 100), Err(CampaignError::InvalidMint));
}

#[test]
fn donate_zero_is_refused() {
    let (campaign, escrow) = new_campaign(1000);
    let mut ctx = donation(campaign, escrow, 500, None);
    let before = ctx.clone();
    assert_eq!(donate(&mut ctx, 0), Err(CampaignError::DonationAmountMustBePositive));
    assert_eq!(ctx, before);
    assert_eq!(ctx.donor_pda, None);
}

#[test]
fn donate_more_than_held_is_refused() {
    let (campaign, escrow) = new_campaign(1000);
    let mut ctx = donation(campaign, escrow, 500, None);
    let before = ctx.clone();
    assert_eq!(donate(&mut ctx, 501), Err(CampaignError::InsufficientFunds));
    assert_eq!(ctx, before);
    assert_eq!(donate(&mut ctx, 500), Ok(false));
    assert_eq!(ctx.donor_token_account.amount, 0);
}

#[test]
fn donate_from_account_the_donor_does_not_control_is_refused() {
    let (campaign, escrow) = new_campaign(1000);
    let mut ctx = donation(campaign, escrow, 500, None);
    ctx.donor_token_account.owner = key(OTHER);
    let before = ctx.clone();
    assert_eq!(donate(&mut ctx, 100), Err(CampaignError::AccountMismatch));
    assert_eq!(ctx, before);
}

#[test]
fn donate_into_escrow_of_another_authority_is_refused() {
    let (campaign, escrow) = new_campaign(1000);
    let mut ctx = donation(campaign, escrow, 500, None);
    ctx.campaign_token_account.owner = key(OTHER);
    let before = ctx.clone();
    assert_eq!(donate(&mut ctx, 100), Err(CampaignError::AccountMismatch));
    assert_eq!(ctx, before);
}

#[test]
fn donate_with_record_of_another_donor_is_refused() {
    let (campaign, escrow) = new_campaign(1000);
    let foreign =
        Donor { donor: key(OTHER), campaign: key(CAMPAIGN), amount_donated: 10, bump: 7 };
    let mut ctx = donation(campaign, escrow, 500, Some(foreign));
    let before = ctx.clone();
    assert_eq!(donate(&mut ctx, 100), Err(CampaignError::AccountMismatch));
    assert_eq!(ctx, before);
    let (campaign, escrow) = new_campaign(1000);
    let elsewhere = Donor { donor: key(DONOR), campaign: key(OTHER), amount_donated: 10, bump: 7 };
    let mut ctx = donation(campaign, escrow, 500, Some(elsewhere));
    assert_eq!(donate(&mut ctx, 100), Err(CampaignError::AccountMismatch));
}

#[test]
fn campaign_total_overflow_is_refused() {
    let (mut campaign, escrow) = new_campaign(1000);
    campaign.amount_donated = u64::MAX - 5;
    campaign.threshold_reached = true;
    let mut ctx = donation(campaign, escrow, 500, None);
    let before = ctx.clone();
    assert_eq!(donate(&mut ctx, 6), Err(CampaignError::Overflow));
    assert_eq!(ctx, before);
    assert_eq!(donate(&mut ctx, 5), Ok(false));
    assert_eq!(ctx.campaign.amount_donated, u64::MAX);
}

#[test]
fn donor_total_overflow_is_refused() {
    let (campaign, escrow) = new_campaign(1000);
    let record =
        Donor { donor: key(DONOR), campaign: key(CAMPAIGN), amount_donated: u64::MAX - 1, bump: 7 };
    let mut ctx = donation(campaign, escrow, 500, Some(record));
    let before = ctx.clone();
    assert_eq!(donate(&mut ctx, 2), Err(CampaignError::Overflow));
    assert_eq!(ctx, before);
    assert_eq!(donate(&mut ctx, 1), Ok(false));
    assert_eq!(ctx.donor_pda.unwrap().amount_donated, u64::MAX);
}

#[test]
fn escrow_overflow_is_refused() {
    let (campaign, mut escrow) = new_campaign(1000);
    escrow.amount = u64::MAX - 3;
    let mut ctx = donation(campaign, escrow, 500, None);
    let before = ctx.clone();
    assert_eq!(donate(&mut ctx, 4), Err(CampaignError::Overflow));
    assert_eq!(ctx, before);
}

#[test]
fn escrow_and_record_stay_in_step() {
    let (campaign, escrow) = new_campaign(70);
    let mut giving = donation(campaign, escrow, 500, None);
    for amount in [10u64, 20, 30, 40] {
        donate(&mut giving, amount).unwrap();
        assert_eq!(giving.campaign_token_account.amount, giving.campaign.amount_donated);
    }
    let mut taking = withdrawal(giving.campaign.clone(), giving.campaign_token_account, 0);
    assert_eq!(withdraw(&mut taking), Ok(100));
    assert_eq!(taking.campaign_token_account.amount, taking.campaign.amount_donated);
}
