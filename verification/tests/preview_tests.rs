use lbp_core::errors::ErrorCode;
use lbp_core::pricing::{get_amount_in, get_amount_out};
use lbp_core::previews::{
    preview_assets_in, preview_assets_out, preview_shares_in, preview_shares_out,
};
use lbp_core::state::{Pool, PoolSettings};
use lbp_core::weights::compute_reserves_and_weights;

fn settings() -> PoolSettings {
    PoolSettings {
        asset: 1,
        share: 2,
        virtual_assets: 0,
        virtual_shares: 0,
        max_share_price: 1_000_000_000_000_000,
        max_shares_out: u64::MAX,
        max_assets_in: u64::MAX,
        weight_start: 500_000_000,
        weight_end: 500_000_000,
        sale_start: 0,
        sale_end: 1000,
        vest_cliff: 0,
        vest_end: 0,
        selling_allowed: true,
    }
}

fn pool() -> Pool {
    Pool {
        settings: settings(),
        closed: false,
        paused: false,
        total_swap_fees_asset: 0,
        total_swap_fees_share: 0,
        total_purchased: 0,
        total_referred: 0,
    }
}

#[test]
fn reserves_and_weights_flat_schedule() {
    let r = compute_reserves_and_weights(&pool(), 100_000, 1_000_000, 500).unwrap();
    assert_eq!(r, (100_000, 1_000_000, 500_000_000, 500_000_000));
}

#[test]
fn reserves_apply_fees_and_virtual_padding() {
    let mut p = pool();
    p.settings.virtual_assets = 500;
    p.settings.virtual_shares = 700;
    p.total_swap_fees_asset = 100;
    p.total_purchased = 300;
    let r = compute_reserves_and_weights(&p, 10_000, 20_000, 250).unwrap();
    assert_eq!(r, (10_400, 20_400, 500_000_000, 500_000_000));
}

#[test]
fn weights_interpolate_and_sum_to_wad() {
    let mut p = pool();
    p.settings.weight_start = 900_000_000;
    p.settings.weight_end = 100_000_000;
    let r = compute_reserves_and_weights(&p, 100_000, 1_000_000, 250).unwrap();
    assert_eq!(r.2, 700_000_000);
    assert_eq!(r.3, 300_000_000);
    assert_eq!(r.2 + r.3, 1_000_000_000);
}

#[test]
fn weights_clamp_after_sale_end() {
    let mut p = pool();
    p.settings.weight_start = 900_000_000;
    p.settings.weight_end = 100_000_000;
    let r = compute_reserves_and_weights(&p, 100_000, 1_000_000, 2000).unwrap();
    assert_eq!(r.2, 100_000_000);
    assert_eq!(r.3, 900_000_000);
}

#[test]
fn reserves_underflow_is_math_error() {
    let mut p = pool();
    p.total_swap_fees_asset = 200_000;
    let r = compute_reserves_and_weights(&p, 100_000, 1_000_000, 0);
    assert_eq!(r, Err(ErrorCode::MathError));
}

#[test]
fn guard_passes_at_exactly_thirty_percent() {
    // 300 in against a reserve of 1000: exactly at the cap.
    assert_eq!(
        get_amount_out(300, 1000, 1000, 500_000_000, 500_000_000),
        Ok(230)
    );
    assert_eq!(
        get_amount_in(300, 1000, 1000, 500_000_000, 500_000_000),
        Ok(428)
    );
}

#[test]
fn guard_fails_one_unit_past_thirty_percent() {
    assert_eq!(
        get_amount_out(301, 1000, 1000, 500_000_000, 500_000_000),
        Err(ErrorCode::AmountInTooLarge)
    );
    assert_eq!(
        get_amount_in(301, 1000, 1000, 500_000_000, 500_000_000),
        Err(ErrorCode::AmountOutTooLarge)
    );
}

#[test]
fn weight_ratio_too_large_is_unsafe_power() {
    // weight_in / weight_out == 128 whole units.
    assert_eq!(
        get_amount_out(1, 1000, 1000, 128, 1),
        Err(ErrorCode::UnsafePower)
    );
    assert_eq!(
        get_amount_in(1, 1000, 1000, 1, 128),
        Err(ErrorCode::UnsafePower)
    );
}

#[test]
fn zero_weight_is_math_error() {
    assert_eq!(
        get_amount_out(1, 1000, 1000, 500_000_000, 0),
        Err(ErrorCode::MathError)
    );
    assert_eq!(
        get_amount_in(1, 1000, 1000, 0, 500_000_000),
        Err(ErrorCode::MathError)
    );
}

#[test]
fn quote_assets_in_flat_pool() {
    let r = preview_assets_in(&pool(), 1000, 100_000, 1_000_000, 9, 9, 0);
    assert_eq!(r, Ok(100));
}

#[test]
fn quote_shares_out_flat_pool() {
    let r = preview_shares_out(&pool(), 10_000, 100_000, 1_000_000, 9, 9, 0);
    assert_eq!(r, Ok(90_909));
}

#[test]
fn quote_assets_out_flat_pool() {
    let r = preview_assets_out(&pool(), 1000, 100_000, 1_000_000, 9, 9, 0);
    assert_eq!(r, Ok(99));
}

#[test]
fn quote_shares_in_flat_pool() {
    let r = preview_shares_in(&pool(), 100, 100_000, 1_000_000, 9, 9, 0);
    assert_eq!(r, Ok(1001));
}

#[test]
fn quotes_with_coarser_asset_decimals() {
    // Asset token with 6 decimals: the quote comes back in its units.
    let r = preview_assets_in(&pool(), 1000, 100_000, 1_000_000, 6, 9, 0);
    assert_eq!(r, Ok(100));
}

#[test]
fn round_trip_within_one_unit() {
    // Buying 1000 shares costs 100 assets; spending those 100 assets
    // buys the same shares back within one unit of truncation.
    let shares_out = 1000u64;
    let cost = preview_assets_in(&pool(), shares_out, 100_000, 1_000_000, 9, 9, 0).unwrap();
    let back = preview_shares_out(&pool(), cost, 100_000, 1_000_000, 9, 9, 0).unwrap();
    assert_eq!(cost, 100);
    assert_eq!(back, 999);
    assert!(shares_out - back <= 1);
}

#[test]
fn price_cap_clamps_asset_leg() {
    // The uncapped cost of 1000 shares is 100 (0.1 per share); a cap of
    // 0.05 per share cuts it to 50.
    let mut p = pool();
    p.settings.max_share_price = 50_000_000;
    let r = preview_assets_in(&p, 1000, 100_000, 1_000_000, 9, 9, 0);
    assert_eq!(r, Ok(50));
}

#[test]
fn price_cap_raises_share_leg() {
    // Uncapped, 10,000 assets buy 90,909 shares (0.11 per share); the
    // 0.05 cap prices the deposit at the cap instead: 200,000 shares.
    let mut p = pool();
    p.settings.max_share_price = 50_000_000;
    let r = preview_shares_out(&p, 10_000, 100_000, 1_000_000, 9, 9, 0);
    assert_eq!(r, Ok(200_000));
}

#[test]
fn preview_collapses_engine_errors_to_math_error() {
    // 40% of the asset reserve: the engine would say AmountInTooLarge,
    // the preview reports a single math error.
    let r = preview_shares_out(&pool(), 40_000, 100_000, 1_000_000, 9, 9, 0);
    assert_eq!(r, Err(ErrorCode::MathError));
}
