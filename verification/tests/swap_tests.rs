use lbp_core::errors::ErrorCode;
use lbp_core::state::{LBPManagerInfo, Pool, PoolSettings, UserStats};
use lbp_core::swaps::{
    swap_assets_for_exact_shares, swap_exact_assets_for_shares, swap_exact_shares_for_assets,
    swap_shares_for_exact_assets,
};

fn settings() -> PoolSettings {
    PoolSettings {
        asset: 1,
        share: 2,
        virtual_assets: 0,
        virtual_shares: 0,
        max_share_price: 1_000_000_000_000_000,
        max_shares_out: u64::MAX,
        max_assets_in: u64::MAX,
        weight_start: 500_000_000,
        weight_end: 500_000_000,
        sale_start: 0,
        sale_end: 1000,
        vest_cliff: 0,
        vest_end: 0,
        selling_allowed: true,
    }
}

fn pool() -> Pool {
    Pool {
        settings: settings(),
        closed: false,
        paused: false,
        total_swap_fees_asset: 0,
        total_swap_fees_share: 0,
        total_purchased: 0,
        total_referred: 0,
    }
}

fn factory() -> LBPManagerInfo {
    LBPManagerInfo {
        id: 1,
        authority: 10,
        fee_recipient: 11,
        platform_fee: 0,
        referrer_fee: 0,
        swap_fee: 5_000_000,  // 0.5%
    }
}

fn fresh_user() -> UserStats {
    UserStats { purchased: 0, claimed: 0 }
}

#[test]
fn buy_exact_shares_charges_fee_on_top() {
    let mut p = pool();
    let mut u = fresh_user();
    // The quote for 1000 shares is 100 assets; 0.5% of 100 truncates to 0.
    let r = swap_assets_for_exact_shares(
        &mut p, &mut u, &factory(), 100_000, 1_000_000, 9, 9, 0, 1000, u64::MAX,
    );
    assert_eq!(r, Ok(100));
    assert_eq!(p.total_purchased, 1000);
    assert_eq!(p.total_swap_fees_asset, 0);
    assert_eq!(u.purchased, 1000);
}

#[test]
fn deposit_fee_accumulates_without_drift() {
    // 0.5% of a 1,000,000 deposit is exactly 5,000; across two swaps
    // the asset-side fee total is exactly twice that.
    let mut p = pool();
    let mut u = fresh_user();
    let f = factory();
    let r1 = swap_exact_assets_for_shares(
        &mut p, &mut u, &f, 10_000_000, 100_000_000, 9, 9, 0, 1_000_000, 0,
    );
    assert_eq!(r1, Ok(9_049_568));
    assert_eq!(p.total_swap_fees_asset, 5_000);
    let r2 = swap_exact_assets_for_shares(
        &mut p, &mut u, &f, 11_000_000, 100_000_000, 9, 9, 0, 1_000_000, 0,
    );
    assert_eq!(r2, Ok(7_547_596));
    assert_eq!(p.total_swap_fees_asset, 10_000);
    assert_eq!(p.total_purchased, 9_049_568 + 7_547_596);
    assert_eq!(u.purchased, 9_049_568 + 7_547_596);
}

#[test]
fn buy_below_min_shares_is_slippage() {
    let mut p = pool();
    let mut u = fresh_user();
    let r = swap_exact_assets_for_shares(
        &mut p, &mut u, &factory(), 10_000_000, 100_000_000, 9, 9, 0, 1_000_000, 10_000_000,
    );
    assert_eq!(r, Err(ErrorCode::SlippageExceeded));
    assert_eq!(p, pool());
    assert_eq!(u, fresh_user());
}

#[test]
fn buy_above_max_assets_is_slippage() {
    let mut p = pool();
    let mut u = fresh_user();
    let r = swap_assets_for_exact_shares(
        &mut p, &mut u, &factory(), 100_000, 1_000_000, 9, 9, 0, 1000, 99,
    );
    assert_eq!(r, Err(ErrorCode::SlippageExceeded));
    assert_eq!(p, pool());
}

#[test]
fn buy_breaching_asset_cap_fails() {
    let mut p = pool();
    p.settings.max_assets_in = 100_050;
    let mut u = fresh_user();
    let r = swap_assets_for_exact_shares(
        &mut p, &mut u, &factory(), 100_000, 1_000_000, 9, 9, 0, 1000, u64::MAX,
    );
    assert_eq!(r, Err(ErrorCode::MaxAssetsInExceeded));
    assert_eq!(p.total_purchased, 0);
}

#[test]
fn share_cap_fails_past_but_not_at_the_cap() {
    // Cap 10,000 with 9,999 already sold: two more shares break the
    // cap, one more lands exactly on it and succeeds.
    let mut p = pool();
    p.settings.max_shares_out = 10_000;
    p.total_purchased = 9_999;
    let mut u = fresh_user();
    let f = factory();
    let r2 = swap_assets_for_exact_shares(
        &mut p, &mut u, &f, 1_000_000, 1_000_000, 9, 9, 0, 2, u64::MAX,
    );
    assert_eq!(r2, Err(ErrorCode::MaxSharesExceeded));
    assert_eq!(p.total_purchased, 9_999);
    let r1 = swap_assets_for_exact_shares(
        &mut p, &mut u, &f, 1_000_000, 1_000_000, 9, 9, 0, 1, u64::MAX,
    );
    assert_eq!(r1, Ok(1));
    assert_eq!(p.total_purchased, 10_000);
}

#[test]
fn sell_exact_shares_pays_fee_from_input() {
    let mut p = pool();
    p.total_purchased = 50_000;
    let mut u = UserStats { purchased: 50_000, claimed: 0 };
    // Fee on 10,000 surrendered shares is 50; 9,950 go through the curve.
    let r = swap_exact_shares_for_assets(
        &mut p, &mut u, &factory(), 100_000, 1_000_000, 9, 9, 0, 10_000, 0,
    );
    assert_eq!(r, Ok(1036));
    assert_eq!(p.total_swap_fees_share, 50);
    assert_eq!(p.total_purchased, 40_000);
    assert_eq!(u.purchased, 40_000);
}

#[test]
fn sell_exact_assets_adds_fee_on_top() {
    let mut p = pool();
    p.total_purchased = 50_000;
    let mut u = UserStats { purchased: 50_000, claimed: 0 };
    // Withdrawing 50 assets is quoted at 475 shares; the 0.5% fee adds 2.
    let r = swap_shares_for_exact_assets(
        &mut p, &mut u, &factory(), 100_000, 1_000_000, 9, 9, 0, 50, u64::MAX,
    );
    assert_eq!(r, Ok(477));
    assert_eq!(p.total_swap_fees_share, 2);
    assert_eq!(p.total_purchased, 50_000 - 477);
    assert_eq!(u.purchased, 50_000 - 477);
}

#[test]
fn sell_beyond_holdings_is_math_error() {
    let mut p = pool();
    p.total_purchased = 50_000;
    let mut u = UserStats { purchased: 100, claimed: 0 };
    let r = swap_exact_shares_for_assets(
        &mut p, &mut u, &factory(), 100_000, 1_000_000, 9, 9, 0, 10_000, 0,
    );
    assert_eq!(r, Err(ErrorCode::MathError));
    assert_eq!(u.purchased, 100);
    assert_eq!(p.total_purchased, 50_000);
}

#[test]
fn sell_shares_above_max_is_slippage() {
    let mut p = pool();
    p.total_purchased = 50_000;
    let mut u = UserStats { purchased: 50_000, claimed: 0 };
    let r = swap_shares_for_exact_assets(
        &mut p, &mut u, &factory(), 100_000, 1_000_000, 9, 9, 0, 50, 100,
    );
    assert_eq!(r, Err(ErrorCode::SlippageExceeded));
    assert_eq!(p.total_purchased, 50_000);
}

#[test]
fn closed_pool_refuses_swaps() {
    let mut p = pool();
    p.closed = true;
    let mut u = fresh_user();
    let r = swap_assets_for_exact_shares(
        &mut p, &mut u, &factory(), 100_000, 1_000_000, 9, 9, 0, 1000, u64::MAX,
    );
    assert_eq!(r, Err(ErrorCode::PoolIsClosed));
}

#[test]
fn paused_pool_refuses_swaps() {
    let mut p = pool();
    p.paused = true;
    let mut u = fresh_user();
    let r = swap_exact_shares_for_assets(
        &mut p, &mut u, &factory(), 100_000, 1_000_000, 9, 9, 0, 100, 0,
    );
    assert_eq!(r, Err(ErrorCode::PoolIsPaused));
}

#[test]
fn oversized_swap_reports_math_error() {
    let mut p = pool();
    let mut u = fresh_user();
    // 40% of the asset reserve trips the engine guard; the swap reports
    // it as a math error and changes nothing.
    let r = swap_exact_assets_for_shares(
        &mut p, &mut u, &factory(), 100_000, 1_000_000, 9, 9, 0, 40_000, 0,
    );
    assert_eq!(r, Err(ErrorCode::MathError));
    assert_eq!(p, pool());
}
