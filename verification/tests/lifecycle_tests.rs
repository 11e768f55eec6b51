use lbp_core::admin::{
    initialize, set_fee_recipient, set_platform_fee, set_referrer_fee, set_swap_fee,
    transfer_ownership,
};
use lbp_core::errors::ErrorCode;
use lbp_core::pool_ops::{close, create_pool, unpause_pool};
use lbp_core::state::{create_user_stats, PoolSettings, UserStats};
use lbp_core::vesting::{claimable, redeem};

fn settings() -> PoolSettings {
    PoolSettings {
        asset: 1,
        share: 2,
        virtual_assets: 0,
        virtual_shares: 0,
        max_share_price: 1_000_000_000_000_000,
        max_shares_out: u64::MAX,
        max_assets_in: u64::MAX,
        weight_start: 500_000_000,
        weight_end: 500_000_000,
        sale_start: 0,
        sale_end: 1000,
        vest_cliff: 1100,
        vest_end: 2100,
        selling_allowed: true,
    }
}

#[test]
fn create_pool_accepts_valid_settings() {
    let p = create_pool(&settings(), 1_000).unwrap();
    assert_eq!(p.settings, settings());
    assert!(!p.closed);
    assert!(!p.paused);
    assert_eq!(p.total_swap_fees_asset, 0);
    assert_eq!(p.total_swap_fees_share, 0);
    assert_eq!(p.total_purchased, 0);
    assert_eq!(p.total_referred, 0);
}

#[test]
fn create_pool_rejects_same_or_unset_tokens() {
    let mut s = settings();
    s.share = s.asset;
    assert_eq!(create_pool(&s, 1000), Err(ErrorCode::InvalidAssetOrShare));
    let mut s = settings();
    s.asset = 0;
    assert_eq!(create_pool(&s, 1000), Err(ErrorCode::InvalidAssetOrShare));
}

#[test]
fn create_pool_rejects_empty_sale_window() {
    let mut s = settings();
    s.sale_end = s.sale_start;
    assert_eq!(create_pool(&s, 1000), Err(ErrorCode::SalePeriodLow));
}

#[test]
fn create_pool_rejects_cliff_before_sale_end() {
    let mut s = settings();
    s.vest_cliff = 500;  // before sale_end = 1000, with vesting enabled
    assert_eq!(create_pool(&s, 1000), Err(ErrorCode::InvalidVestCliff));
}

#[test]
fn create_pool_rejects_cliff_past_vest_end() {
    let mut s = settings();
    s.vest_cliff = 2100;
    s.vest_end = 2100;  // still > sale_end, cliff not below end
    assert_eq!(create_pool(&s, 1000), Err(ErrorCode::InvalidVestEnd));
}

#[test]
fn create_pool_rejects_out_of_band_weights() {
    let mut s = settings();
    s.weight_start = 9_999_999;  // just under 0.01 of WAD
    assert_eq!(create_pool(&s, 1000), Err(ErrorCode::InvalidWeightConfig));
    let mut s = settings();
    s.weight_end = 990_000_001;  // just over 0.99 of WAD
    assert_eq!(create_pool(&s, 1000), Err(ErrorCode::InvalidWeightConfig));
}

#[test]
fn create_pool_rejects_fully_unfunded_pool() {
    let mut s = settings();
    s.virtual_assets = 0;
    assert_eq!(create_pool(&s, 0), Err(ErrorCode::InvalidAssetValue));
    s.virtual_assets = 1;
    assert!(create_pool(&s, 0).is_ok());
}

#[test]
fn initialize_enforces_fee_ceiling() {
    assert!(initialize(1, 10, 11, 100_000_000, 100_000_000, 100_000_000).is_ok());
    assert_eq!(
        initialize(1, 10, 11, 100_000_001, 0, 0),
        Err(ErrorCode::MaxFeeExceeded)
    );
    assert_eq!(
        initialize(1, 10, 11, 0, 0, 100_000_001),
        Err(ErrorCode::MaxFeeExceeded)
    );
}

#[test]
fn fee_setters_enforce_ceiling_and_update() {
    let mut m = initialize(1, 10, 11, 0, 0, 0).unwrap();
    assert_eq!(set_swap_fee(&mut m, 5_000_000), Ok(()));
    assert_eq!(m.swap_fee, 5_000_000);
    assert_eq!(set_swap_fee(&mut m, 100_000_001), Err(ErrorCode::MaxFeeExceeded));
    assert_eq!(m.swap_fee, 5_000_000);
    assert_eq!(set_platform_fee(&mut m, 20_000_000), Ok(()));
    assert_eq!(m.platform_fee, 20_000_000);
    assert_eq!(set_referrer_fee(&mut m, 10_000_000), Ok(()));
    assert_eq!(m.referrer_fee, 10_000_000);
    set_fee_recipient(&mut m, 42);
    assert_eq!(m.fee_recipient, 42);
    transfer_ownership(&mut m, 43);
    assert_eq!(m.authority, 43);
}

#[test]
fn fresh_user_stats_are_zeroed() {
    let u = create_user_stats();
    assert_eq!(u, UserStats { purchased: 0, claimed: 0 });
}

#[test]
fn unpause_clears_the_flag_once_open() {
    let mut p = create_pool(&settings(), 1000).unwrap();
    p.paused = true;
    assert_eq!(unpause_pool(&mut p), Ok(()));
    assert!(!p.paused);
    p.closed = true;
    assert_eq!(unpause_pool(&mut p), Err(ErrorCode::PoolIsClosed));
}

#[test]
fn close_splits_fees_and_remainder() {
    let mut p = create_pool(&settings(), 1000).unwrap();
    p.total_swap_fees_asset = 2_000;
    p.total_swap_fees_share = 300;
    p.total_purchased = 40_000;
    // platform fee 2% of the net 100,000.
    let plan = close(&mut p, 20_000_000, 102_000, 90_000).unwrap();
    assert!(p.closed);
    assert_eq!(plan.platform_fees, 2_000);
    assert_eq!(plan.fee_asset_transfer, 4_000);
    assert_eq!(plan.fee_share_transfer, 300);
    assert_eq!(plan.owner_assets, 98_000);
    assert_eq!(plan.unsold_shares, 50_000);
}

#[test]
fn close_twice_is_disallowed() {
    let mut p = create_pool(&settings(), 1000).unwrap();
    assert!(close(&mut p, 0, 0, 0).is_ok());
    assert_eq!(close(&mut p, 0, 0, 0), Err(ErrorCode::ClosingDisallowed));
}

#[test]
fn close_with_fees_above_balance_is_math_error() {
    let mut p = create_pool(&settings(), 1000).unwrap();
    p.total_swap_fees_asset = 500;
    assert_eq!(close(&mut p, 0, 400, 0), Err(ErrorCode::MathError));
    assert!(!p.closed);
}

#[test]
fn vesting_schedule_cliff_midpoint_and_end() {
    // Purchased 1000; cliff 100 after the sale, vesting over the next
    // 1000 seconds.
    let s = settings();
    let u = UserStats { purchased: 1000, claimed: 0 };
    assert_eq!(claimable(&u, &s, 1050), 0);  // before the cliff
    assert_eq!(claimable(&u, &s, 1600), 500);  // linear midpoint
    assert_eq!(claimable(&u, &s, 2100), 1000);  // fully vested
}

#[test]
fn vesting_subtracts_already_claimed() {
    let s = settings();
    let u = UserStats { purchased: 1000, claimed: 300 };
    assert_eq!(claimable(&u, &s, 1600), 200);
    assert_eq!(claimable(&u, &s, 2100), 700);
}

#[test]
fn no_vesting_means_everything_claimable() {
    let mut s = settings();
    s.vest_cliff = 0;
    s.vest_end = 0;
    let u = UserStats { purchased: 750, claimed: 50 };
    assert_eq!(claimable(&u, &s, 0), 700);
}

#[test]
fn redeem_walks_the_vesting_schedule() {
    let mut p = create_pool(&settings(), 1000).unwrap();
    p.closed = true;
    let mut u = UserStats { purchased: 1000, claimed: 0 };
    // Before the cliff nothing is claimable.
    assert_eq!(redeem(&p, &mut u, 1050), Err(ErrorCode::NoSharesToClaim));
    // At the midpoint half has vested.
    assert_eq!(redeem(&p, &mut u, 1600), Ok(500));
    assert_eq!(u.claimed, 500);
    // At the end exactly the unclaimed remainder comes out.
    assert_eq!(redeem(&p, &mut u, 2100), Ok(500));
    assert_eq!(u.claimed, 1000);
    assert_eq!(redeem(&p, &mut u, 2200), Err(ErrorCode::NoSharesToClaim));
}

#[test]
fn redeem_requires_a_closed_pool() {
    let p = create_pool(&settings(), 1000).unwrap();
    let mut u = UserStats { purchased: 1000, claimed: 0 };
    assert_eq!(redeem(&p, &mut u, 2100), Err(ErrorCode::RedeemingDisallowed));
    assert_eq!(u.claimed, 0);
}
