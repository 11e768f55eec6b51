//! The library-wide laws: statements that relate several operations, or
//! hold of every input, proved once here and re-usable by any caller.

use vstd::prelude::*;
use vstd::arithmetic::div_mod::lemma_div_is_ordered;
use vstd::arithmetic::div_mod::lemma_div_multiples_vanish;
use vstd::arithmetic::div_mod::lemma_fundamental_div_mod;
use vstd::arithmetic::div_mod::lemma_mod_division_less_than_divisor;
use vstd::arithmetic::mul::lemma_mul_inequality;
use vstd::arithmetic::power::lemma_pow_positive;
use vstd::arithmetic::power::pow;
use crate::scale::{scale_token_after_spec, scale_token_before_spec, BASE_DECIMALS};
use crate::state::{LBPManagerInfo, Pool, UserStats};
use crate::swaps::{
    swap_exact_assets_for_shares_spec, swap_exact_shares_for_assets_spec, swap_fee_amount_spec,
};
use crate::weights::{compute_reserves_and_weights_spec, lemma_lerp_bounds, lerp_spec};
use crate::{MAX_WEIGHT, MIN_WEIGHT, WAD};

verus! {

/// For every well-formed pool, reserves-and-weights never returns a
/// weight pair other than two in-band weights summing to exactly WAD,
/// whatever the balances and whatever the timestamp.
pub proof fn lemma_weights_sum_wad(pool: Pool, assets: u64, shares: u64, now: u64)
    requires
        pool.wf(),
    ensures
        match compute_reserves_and_weights_spec(pool, assets, shares, now) {
            Ok(t) => t.2 + t.3 == WAD && MIN_WEIGHT <= t.2 <= MAX_WEIGHT && MIN_WEIGHT <= t.3
                <= MAX_WEIGHT,
            Err(_) => true,
        },
{
    let s = pool.settings;
    let duration = (s.sale_end - s.sale_start) as u64;
    let elapsed: u64 = if now <= s.sale_start {
        0u64
    } else if now - s.sale_start > duration {
        duration
    } else {
        (now - s.sale_start) as u64
    };
    lemma_lerp_bounds(s.weight_start, s.weight_end, elapsed, duration);
}

/// Interpolation starts exactly at `x`: `lerp(x, y, 0, n) == x`.
pub proof fn lemma_lerp_at_start(x: u64, y: u64, n: u64)
    requires
        n > 0,
    ensures
        lerp_spec(x, y, 0, n) == x,
{
    if x > y {
        assert((x - y) * 0 == 0) by (nonlinear_arith);
        assert((x - y) * 0 / (n as int) == 0);
    } else {
        assert((y - x) * 0 == 0) by (nonlinear_arith);
        assert((y - x) * 0 / (n as int) == 0);
    }
}

/// Interpolation ends exactly at `y`: `lerp(x, y, n, n) == y`.
pub proof fn lemma_lerp_at_end(x: u64, y: u64, n: u64)
    requires
        n > 0,
    ensures
        lerp_spec(x, y, n, n) == y,
{
    if x > y {
        let d: int = x - y;
        assert(d * n == n * d) by (nonlinear_arith);
        lemma_div_multiples_vanish(d, n as int);
    } else {
        let d: int = y - x;
        assert(d * n == n * d) by (nonlinear_arith);
        lemma_div_multiples_vanish(d, n as int);
    }
}

/// Interpolation is monotonic in the step index: moving from `i1` to a
/// later `i2` moves the value toward `y`, never away from it.
pub proof fn lemma_lerp_monotonic(x: u64, y: u64, i1: u64, i2: u64, n: u64)
    requires
        n > 0,
        i1 <= i2 <= n,
    ensures
        x <= y ==> lerp_spec(x, y, i1, n) <= lerp_spec(x, y, i2, n),
        x > y ==> lerp_spec(x, y, i1, n) >= lerp_spec(x, y, i2, n),
{
    if x > y {
        let d: int = x - y;
        lemma_mul_inequality(i1 as int, i2 as int, d);
        assert(d * i1 == i1 * d) by (nonlinear_arith);
        assert(d * i2 == i2 * d) by (nonlinear_arith);
        lemma_div_is_ordered(d * i1, d * i2, n as int);
    } else {
        let d: int = y - x;
        lemma_mul_inequality(i1 as int, i2 as int, d);
        assert(d * i1 == i1 * d) by (nonlinear_arith);
        assert(d * i2 == i2 * d) by (nonlinear_arith);
        lemma_div_is_ordered(d * i1, d * i2, n as int);
    }
}

/// Fee accounting drifts by nothing but the division's truncation: every
/// successful asset deposit raises the asset-side fee total by exactly
/// `floor(assets_in * swap_fee / WAD)`, so fee totals across repeated
/// swaps are exact sums of per-swap fees.
pub proof fn lemma_deposit_fee_accumulates_exactly(
    pool: Pool,
    user: UserStats,
    factory: LBPManagerInfo,
    assets: u64,
    shares: u64,
    asset_decimals: u32,
    share_decimals: u32,
    now: u64,
    assets_in: u64,
    min_shares_out: u64,
)
    ensures
        match swap_exact_assets_for_shares_spec(
            pool,
            user,
            factory,
            assets,
            shares,
            asset_decimals,
            share_decimals,
            now,
            assets_in,
            min_shares_out,
        ) {
            Ok(t) => t.0.total_swap_fees_asset == pool.total_swap_fees_asset
                + swap_fee_amount_spec(assets_in, factory.swap_fee) && t.0.total_swap_fees_share
                == pool.total_swap_fees_share,
            Err(_) => true,
        },
{
}

/// The share-side twin: every successful surrender of an exact share
/// amount raises the share-side fee total by exactly the fee on that
/// amount.
pub proof fn lemma_sale_fee_accumulates_exactly(
    pool: Pool,
    user: UserStats,
    factory: LBPManagerInfo,
    assets: u64,
    shares: u64,
    asset_decimals: u32,
    share_decimals: u32,
    now: u64,
    shares_in: u64,
    min_assets_out: u64,
)
    ensures
        match swap_exact_shares_for_assets_spec(
            pool,
            user,
            factory,
            assets,
            shares,
            asset_decimals,
            share_decimals,
            now,
            shares_in,
            min_assets_out,
        ) {
            Ok(t) => t.0.total_swap_fees_share == pool.total_swap_fees_share
                + swap_fee_amount_spec(shares_in, factory.swap_fee) && t.0.total_swap_fees_asset
                == pool.total_swap_fees_asset,
            Err(_) => true,
        },
{
}

/// The scaler's round trip. For a token at most as fine as the WAD base,
/// whenever scaling up succeeds, scaling the result back returns the
/// amount exactly. For a finer token, scaling down then up returns the
/// amount minus its remainder modulo `10^(decimals - 9)` — in
/// particular, exactly the amount whenever it is a multiple of that
/// power of ten.
pub proof fn lemma_scale_round_trip(amount: u64, decimals: u32)
    ensures
        decimals <= BASE_DECIMALS ==> match scale_token_before_spec(amount, decimals) {
            Ok(s) => scale_token_after_spec(s, decimals) == Ok::<u64, crate::errors::ErrorCode>(
                amount,
            ),
            Err(_) => true,
        },
        decimals > BASE_DECIMALS ==> {
            let f = pow(10, (decimals - BASE_DECIMALS) as nat);
            scale_token_before_spec(amount, decimals) matches Ok(s) && scale_token_after_spec(
                s,
                decimals,
            ) == Ok::<u64, crate::errors::ErrorCode>((amount - (amount as int) % f) as u64)
        },
{
    if decimals <= BASE_DECIMALS {
        let f = pow(10, (BASE_DECIMALS - decimals) as nat);
        lemma_pow_positive(10, (BASE_DECIMALS - decimals) as nat);
        if amount * f <= u64::MAX {
            let s = (amount * f) as u64;
            assert(amount * f == f * amount) by (nonlinear_arith);
            lemma_div_multiples_vanish(amount as int, f);
            assert((s as int) / f == amount);
        }
    } else {
        let f = pow(10, (decimals - BASE_DECIMALS) as nat);
        lemma_pow_positive(10, (decimals - BASE_DECIMALS) as nat);
        let s = (amount as int) / f;
        lemma_fundamental_div_mod(amount as int, f);
        lemma_mod_division_less_than_divisor(amount as int, f);
        assert(f * s == amount - (amount as int) % f);
        assert(s * f == f * s) by (nonlinear_arith);
        assert(s * f <= u64::MAX);
    }
}

} // verus!
