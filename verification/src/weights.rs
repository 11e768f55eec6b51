//! Weight schedule: linear interpolation of the asset weight across the
//! sale window, and the tradeable reserves derived from vault balances.

use vstd::prelude::*;
use vstd::arithmetic::div_mod::lemma_div_is_ordered;
use vstd::arithmetic::div_mod::lemma_div_multiples_vanish;
use vstd::arithmetic::mul::lemma_mul_inequality;
use crate::errors::ErrorCode;
use crate::scale::{scale_token_before, scale_token_before_spec};
use crate::state::Pool;
use crate::WAD;

verus! {

/// Linear interpolation from `x` toward `y`, `i` steps into `n`:
/// `x - (x-y)*i/n` for a falling segment, `x + (y-x)*i/n` for a rising
/// one; the division truncates.
pub open spec fn lerp_spec(x: u64, y: u64, i: u64, n: u64) -> int
    recommends
        n > 0,
        i <= n,
{
    if x > y {
        x - (x - y) * i / (n as int)
    } else {
        x + (y - x) * i / (n as int)
    }
}

/// The interpolated value never leaves the segment between `x` and `y`.
pub proof fn lemma_lerp_bounds(x: u64, y: u64, i: u64, n: u64)
    requires
        n > 0,
        i <= n,
    ensures
        x > y ==> y <= lerp_spec(x, y, i, n) <= x,
        x <= y ==> x <= lerp_spec(x, y, i, n) <= y,
{
    if x > y {
        let d: int = x - y;
        lemma_mul_inequality(i as int, n as int, d);
        assert(d * i == i * d) by (nonlinear_arith);
        assert(d * n == n * d) by (nonlinear_arith);
        lemma_div_is_ordered(0, d * i, n as int);
        lemma_div_is_ordered(d * i, d * n, n as int);
        lemma_div_multiples_vanish(d, n as int);
    } else {
        let d: int = y - x;
        lemma_mul_inequality(i as int, n as int, d);
        assert(d * i == i * d) by (nonlinear_arith);
        assert(d * n == n * d) by (nonlinear_arith);
        lemma_div_is_ordered(0, d * i, n as int);
        lemma_div_is_ordered(d * i, d * n, n as int);
        lemma_div_multiples_vanish(d, n as int);
    }
}

/// Interpolates between `x` at step 0 and `y` at step `n`.
pub fn linear_interpolation(x: u64, y: u64, i: u64, n: u64) -> (r: u64)
    requires
        n > 0,
        i <= n,
    ensures
        r == lerp_spec(x, y, i, n),
{
    proof {
        lemma_lerp_bounds(x, y, i, n);
    }
    if x > y {
        proof {
            crate::math::lemma_u64_mul_fits_u128((x - y) as u64, i);
        }
        let step = ((x - y) as u128) * (i as u128) / (n as u128);
        x - (step as u64)
    } else {
        proof {
            crate::math::lemma_u64_mul_fits_u128((y - x) as u64, i);
        }
        let step = ((y - x) as u128) * (i as u128) / (n as u128);
        x + (step as u64)
    }
}

/// Asset weight at `now`: elapsed sale time, clamped to the sale window,
/// interpolated from the start weight to the end weight.
pub open spec fn asset_weight_at(settings: crate::state::PoolSettings, now: u64) -> int
    recommends
        settings.sale_start < settings.sale_end,
{
    let duration = settings.sale_end - settings.sale_start;
    let elapsed = if now <= settings.sale_start {
        0
    } else if now - settings.sale_start > duration {
        duration
    } else {
        now - settings.sale_start
    };
    lerp_spec(settings.weight_start, settings.weight_end, elapsed as u64, duration as u64)
}

/// Reserves and weights for a pool at `now`, given the raw vault
/// balances. The asset reserve excludes collected fees and adds the
/// virtual padding; the share reserve excludes already-sold shares.
/// Arithmetic leaving 64 bits, an empty sale window, or an interpolated
/// weight above WAD (possible only for malformed settings) is a math
/// error.
pub open spec fn compute_reserves_and_weights_spec(
    pool: Pool,
    assets: u64,
    shares: u64,
    now: u64,
) -> Result<(u64, u64, u64, u64), ErrorCode> {
    if pool.total_swap_fees_asset > assets {
        Err(ErrorCode::MathError)
    } else if assets - pool.total_swap_fees_asset + pool.settings.virtual_assets > u64::MAX {
        Err(ErrorCode::MathError)
    } else if pool.total_purchased > shares + pool.settings.virtual_shares {
        Err(ErrorCode::MathError)
    } else if shares + pool.settings.virtual_shares - pool.total_purchased > u64::MAX {
        Err(ErrorCode::MathError)
    } else if pool.settings.sale_end <= pool.settings.sale_start {
        Err(ErrorCode::MathError)
    } else {
        let asset_reserve = assets - pool.total_swap_fees_asset + pool.settings.virtual_assets;
        let share_reserve = shares + pool.settings.virtual_shares - pool.total_purchased;
        let asset_weight = asset_weight_at(pool.settings, now);
        if asset_weight > WAD {
            Err(ErrorCode::MathError)
        } else {
            Ok(
                (
                    asset_reserve as u64,
                    share_reserve as u64,
                    asset_weight as u64,
                    (WAD - asset_weight) as u64,
                ),
            )
        }
    }
}

/// Computes `(asset_reserve, share_reserve, asset_weight, share_weight)`
/// for the pool at `now`, exactly as the spec defines it. The two
/// weights of a successful result sum to WAD.
pub fn compute_reserves_and_weights(pool: &Pool, assets: u64, shares: u64, now: u64) -> (r: Result<
    (u64, u64, u64, u64),
    ErrorCode,
>)
    ensures
        r == compute_reserves_and_weights_spec(*pool, assets, shares, now),
        r matches Ok(t) ==> t.2 + t.3 == WAD,
{
    if pool.total_swap_fees_asset > assets {
        return Err(ErrorCode::MathError);
    }
    let net_assets = assets - pool.total_swap_fees_asset;
    let ar = (net_assets as u128) + (pool.settings.virtual_assets as u128);
    if ar > u64::MAX as u128 {
        return Err(ErrorCode::MathError);
    }
    let padded_shares = (shares as u128) + (pool.settings.virtual_shares as u128);
    if (pool.total_purchased as u128) > padded_shares {
        return Err(ErrorCode::MathError);
    }
    let sr = padded_shares - (pool.total_purchased as u128);
    if sr > u64::MAX as u128 {
        return Err(ErrorCode::MathError);
    }
    if pool.settings.sale_end <= pool.settings.sale_start {
        return Err(ErrorCode::MathError);
    }
    let duration = pool.settings.sale_end - pool.settings.sale_start;
    let elapsed = if now <= pool.settings.sale_start {
        0u64
    } else if now - pool.settings.sale_start > duration {
        duration
    } else {
        now - pool.settings.sale_start
    };
    let asset_weight = linear_interpolation(
        pool.settings.weight_start,
        pool.settings.weight_end,
        elapsed,
        duration,
    );
    if asset_weight > WAD {
        return Err(ErrorCode::MathError);
    }
    let share_weight = WAD - asset_weight;
    Ok((ar as u64, sr as u64, asset_weight, share_weight))
}

/// Both reserves rescaled to the internal WAD base; a failing rescale of
/// either side is reported as is, the asset side first.
pub open spec fn scaled_reserves_spec(
    asset_reserve: u64,
    share_reserve: u64,
    asset_decimals: u32,
    share_decimals: u32,
) -> Result<(u64, u64), ErrorCode> {
    match scale_token_before_spec(asset_reserve, asset_decimals) {
        Err(e) => Err(e),
        Ok(a) => match scale_token_before_spec(share_reserve, share_decimals) {
            Err(e) => Err(e),
            Ok(s) => Ok((a, s)),
        },
    }
}

/// Rescales both reserves to the internal WAD base.
pub fn scaled_reserves(
    asset_reserve: u64,
    share_reserve: u64,
    asset_decimals: u32,
    share_decimals: u32,
) -> (r: Result<(u64, u64), ErrorCode>)
    ensures
        r == scaled_reserves_spec(asset_reserve, share_reserve, asset_decimals, share_decimals),
{
    let a = match scale_token_before(asset_reserve, asset_decimals) {
        Ok(a) => a,
        Err(e) => {
            return Err(e);
        },
    };
    let s = match scale_token_before(share_reserve, share_decimals) {
        Ok(s) => s,
        Err(e) => {
            return Err(e);
        },
    };
    Ok((a, s))
}

} // verus!
