//! Preview/quote layer: the four public quote operations, each composing
//! the weight schedule, the scaler, the pricing engine and the
//! max-share-price clamp. Every internal failure — an overflow, a zero
//! divisor or a pricing-engine guard — surfaces as a single math error,
//! so a preview either quotes or refuses as one unit.
//!
//! The share-price cap compares the WAD-scaled price `asset_leg /
//! share_leg` against `max_share_price` by cross-multiplication; when
//! the cap is exceeded, the computed leg is replaced by the amount that
//! prices the trade at the cap exactly.

use vstd::prelude::*;
use vstd::arithmetic::div_mod::lemma_div_is_ordered;
use vstd::arithmetic::div_mod::lemma_div_multiples_vanish;
use crate::errors::ErrorCode;
use crate::math::lemma_u64_mul_fits_u128;
use crate::pricing::{get_amount_in, get_amount_in_spec, get_amount_out, get_amount_out_spec};
use crate::scale::{
    scale_token_after, scale_token_after_spec, scale_token_before, scale_token_before_spec,
};
use crate::state::Pool;
use crate::weights::{
    compute_reserves_and_weights, compute_reserves_and_weights_spec, scaled_reserves,
    scaled_reserves_spec,
};
use crate::WAD;

verus! {

/// Caps the asset leg of a quote: where `asset_amount / share_amount`
/// would exceed the WAD-scaled `max_share_price`, the asset leg is cut
/// to `share_amount * max_share_price / WAD`, never enlarged.
pub open spec fn clamp_asset_leg_spec(asset_amount: u64, share_amount: u64, max_share_price: u64) -> int {
    if asset_amount * WAD > share_amount * max_share_price {
        share_amount * max_share_price / (WAD as int)
    } else {
        asset_amount as int
    }
}

/// Caps the share leg of a quote: where `asset_amount / share_amount`
/// would exceed the WAD-scaled `max_share_price`, the share leg is
/// raised to `asset_amount * WAD / max_share_price`; a zero cap or a
/// raised leg beyond 64 bits is a math error.
pub open spec fn clamp_share_leg_spec(share_amount: u64, asset_amount: u64, max_share_price: u64) -> Result<
    u64,
    ErrorCode,
> {
    if asset_amount * WAD > share_amount * max_share_price {
        if max_share_price == 0 {
            Err(ErrorCode::MathError)
        } else if asset_amount * WAD / (max_share_price as int) > u64::MAX {
            Err(ErrorCode::MathError)
        } else {
            Ok((asset_amount * WAD / (max_share_price as int)) as u64)
        }
    } else {
        Ok(share_amount)
    }
}

/// Applies the share-price cap to an asset leg.
fn clamp_asset_leg(asset_amount: u64, share_amount: u64, max_share_price: u64) -> (r: u64)
    ensures
        r == clamp_asset_leg_spec(asset_amount, share_amount, max_share_price),
{
    proof {
        lemma_u64_mul_fits_u128(asset_amount, WAD);
        lemma_u64_mul_fits_u128(share_amount, max_share_price);
    }
    let price_side = (asset_amount as u128) * (WAD as u128);
    let cap_side = (share_amount as u128) * (max_share_price as u128);
    if price_side > cap_side {
        proof {
            lemma_div_is_ordered(cap_side as int, price_side as int, WAD as int);
            lemma_div_multiples_vanish(asset_amount as int, WAD as int);
        }
        (cap_side / (WAD as u128)) as u64
    } else {
        asset_amount
    }
}

/// Applies the share-price cap to a share leg.
fn clamp_share_leg(share_amount: u64, asset_amount: u64, max_share_price: u64) -> (r: Result<
    u64,
    ErrorCode,
>)
    ensures
        r == clamp_share_leg_spec(share_amount, asset_amount, max_share_price),
{
    proof {
        lemma_u64_mul_fits_u128(asset_amount, WAD);
        lemma_u64_mul_fits_u128(share_amount, max_share_price);
    }
    let price_side = (asset_amount as u128) * (WAD as u128);
    let cap_side = (share_amount as u128) * (max_share_price as u128);
    if price_side > cap_side {
        if max_share_price == 0 {
            return Err(ErrorCode::MathError);
        }
        let raised = price_side / (max_share_price as u128);
        if raised > u64::MAX as u128 {
            Err(ErrorCode::MathError)
        } else {
            Ok(raised as u64)
        }
    } else {
        Ok(share_amount)
    }
}

/// Cost in assets, in the asset token's native precision, to buy an
/// exact `shares_out`: reserves and weights at `now`, everything
/// rescaled to the WAD base, the invariant's amount-in, the share-price
/// clamp on the asset leg, and the rescale back.
pub open spec fn preview_assets_in_spec(
    pool: Pool,
    shares_out: u64,
    assets: u64,
    shares: u64,
    asset_decimals: u32,
    share_decimals: u32,
    now: u64,
) -> Result<u64, ErrorCode> {
    match compute_reserves_and_weights_spec(pool, assets, shares, now) {
        Err(_) => Err(ErrorCode::MathError),
        Ok((ar, sr, aw, sw)) => match scaled_reserves_spec(ar, sr, asset_decimals, share_decimals) {
            Err(_) => Err(ErrorCode::MathError),
            Ok((ars, srs)) => match scale_token_before_spec(shares_out, share_decimals) {
                Err(_) => Err(ErrorCode::MathError),
                Ok(so) => match get_amount_in_spec(so, ars, srs, aw, sw) {
                    Err(_) => Err(ErrorCode::MathError),
                    Ok(ai) => {
                        let clamped = clamp_asset_leg_spec(ai, so, pool.settings.max_share_price);
                        match scale_token_after_spec(clamped as u64, asset_decimals) {
                            Err(_) => Err(ErrorCode::MathError),
                            Ok(r) => Ok(r),
                        }
                    },
                },
            },
        },
    }
}

/// Shares received, in the share token's native precision, for an exact
/// `assets_in`: the invariant's amount-out with the asset side inbound,
/// then the share-price clamp on the share leg.
pub open spec fn preview_shares_out_spec(
    pool: Pool,
    assets_in: u64,
    assets: u64,
    shares: u64,
    asset_decimals: u32,
    share_decimals: u32,
    now: u64,
) -> Result<u64, ErrorCode> {
    match compute_reserves_and_weights_spec(pool, assets, shares, now) {
        Err(_) => Err(ErrorCode::MathError),
        Ok((ar, sr, aw, sw)) => match scaled_reserves_spec(ar, sr, asset_decimals, share_decimals) {
            Err(_) => Err(ErrorCode::MathError),
            Ok((ars, srs)) => match scale_token_before_spec(assets_in, asset_decimals) {
                Err(_) => Err(ErrorCode::MathError),
                Ok(ai) => match get_amount_out_spec(ai, ars, srs, aw, sw) {
                    Err(_) => Err(ErrorCode::MathError),
                    Ok(so) => match clamp_share_leg_spec(so, ai, pool.settings.max_share_price) {
                        Err(_) => Err(ErrorCode::MathError),
                        Ok(clamped) => match scale_token_after_spec(clamped, share_decimals) {
                            Err(_) => Err(ErrorCode::MathError),
                            Ok(r) => Ok(r),
                        },
                    },
                },
            },
        },
    }
}

/// Assets received, in the asset token's native precision, for selling
/// an exact `shares_in`: the invariant's amount-out with the share side
/// inbound, then the share-price clamp on the asset leg.
pub open spec fn preview_assets_out_spec(
    pool: Pool,
    shares_in: u64,
    assets: u64,
    shares: u64,
    asset_decimals: u32,
    share_decimals: u32,
    now: u64,
) -> Result<u64, ErrorCode> {
    match compute_reserves_and_weights_spec(pool, assets, shares, now) {
        Err(_) => Err(ErrorCode::MathError),
        Ok((ar, sr, aw, sw)) => match scaled_reserves_spec(ar, sr, asset_decimals, share_decimals) {
            Err(_) => Err(ErrorCode::MathError),
            Ok((ars, srs)) => match scale_token_before_spec(shares_in, share_decimals) {
                Err(_) => Err(ErrorCode::MathError),
                Ok(si) => match get_amount_out_spec(si, srs, ars, sw, aw) {
                    Err(_) => Err(ErrorCode::MathError),
                    Ok(ao) => {
                        let clamped = clamp_asset_leg_spec(ao, si, pool.settings.max_share_price);
                        match scale_token_after_spec(clamped as u64, asset_decimals) {
                            Err(_) => Err(ErrorCode::MathError),
                            Ok(r) => Ok(r),
                        }
                    },
                },
            },
        },
    }
}

/// Shares required, in the share token's native precision, to withdraw
/// an exact `assets_out`: the invariant's amount-in with the share side
/// inbound, then the share-price clamp on the share leg.
pub open spec fn preview_shares_in_spec(
    pool: Pool,
    assets_out: u64,
    assets: u64,
    shares: u64,
    asset_decimals: u32,
    share_decimals: u32,
    now: u64,
) -> Result<u64, ErrorCode> {
    match compute_reserves_and_weights_spec(pool, assets, shares, now) {
        Err(_) => Err(ErrorCode::MathError),
        Ok((ar, sr, aw, sw)) => match scaled_reserves_spec(ar, sr, asset_decimals, share_decimals) {
            Err(_) => Err(ErrorCode::MathError),
            Ok((ars, srs)) => match scale_token_before_spec(assets_out, asset_decimals) {
                Err(_) => Err(ErrorCode::MathError),
                Ok(ao) => match get_amount_in_spec(ao, srs, ars, sw, aw) {
                    Err(_) => Err(ErrorCode::MathError),
                    Ok(si) => match clamp_share_leg_spec(si, ao, pool.settings.max_share_price) {
                        Err(_) => Err(ErrorCode::MathError),
                        Ok(clamped) => match scale_token_after_spec(clamped, share_decimals) {
                            Err(_) => Err(ErrorCode::MathError),
                            Ok(r) => Ok(r),
                        },
                    },
                },
            },
        },
    }
}

/// Quotes the asset cost of buying an exact amount of shares.
pub fn preview_assets_in(
    pool: &Pool,
    shares_out: u64,
    assets: u64,
    shares: u64,
    asset_decimals: u32,
    share_decimals: u32,
    now: u64,
) -> (r: Result<u64, ErrorCode>)
    ensures
        r == preview_assets_in_spec(
            *pool,
            shares_out,
            assets,
            shares,
            asset_decimals,
            share_decimals,
            now,
        ),
{
    let (ar, sr, aw, sw) = match compute_reserves_and_weights(pool, assets, shares, now) {
        Ok(t) => t,
        Err(_) => {
            return Err(ErrorCode::MathError);
        },
    };
    let (ars, srs) = match scaled_reserves(ar, sr, asset_decimals, share_decimals) {
        Ok(t) => t,
        Err(_) => {
            return Err(ErrorCode::MathError);
        },
    };
    let so = match scale_token_before(shares_out, share_decimals) {
        Ok(v) => v,
        Err(_) => {
            return Err(ErrorCode::MathError);
        },
    };
    let ai = match get_amount_in(so, ars, srs, aw, sw) {
        Ok(v) => v,
        Err(_) => {
            return Err(ErrorCode::MathError);
        },
    };
    let clamped = clamp_asset_leg(ai, so, pool.settings.max_share_price);
    match scale_token_after(clamped, asset_decimals) {
        Ok(v) => Ok(v),
        Err(_) => Err(ErrorCode::MathError),
    }
}

/// Quotes the shares received for an exact asset deposit.
pub fn preview_shares_out(
    pool: &Pool,
    assets_in: u64,
    assets: u64,
    shares: u64,
    asset_decimals: u32,
    share_decimals: u32,
    now: u64,
) -> (r: Result<u64, ErrorCode>)
    ensures
        r == preview_shares_out_spec(
            *pool,
            assets_in,
            assets,
            shares,
            asset_decimals,
            share_decimals,
            now,
        ),
{
    let (ar, sr, aw, sw) = match compute_reserves_and_weights(pool, assets, shares, now) {
        Ok(t) => t,
        Err(_) => {
            return Err(ErrorCode::MathError);
        },
    };
    let (ars, srs) = match scaled_reserves(ar, sr, asset_decimals, share_decimals) {
        Ok(t) => t,
        Err(_) => {
            return Err(ErrorCode::MathError);
        },
    };
    let ai = match scale_token_before(assets_in, asset_decimals) {
        Ok(v) => v,
        Err(_) => {
            return Err(ErrorCode::MathError);
        },
    };
    let so = match get_amount_out(ai, ars, srs, aw, sw) {
        Ok(v) => v,
        Err(_) => {
            return Err(ErrorCode::MathError);
        },
    };
    let clamped = match clamp_share_leg(so, ai, pool.settings.max_share_price) {
        Ok(v) => v,
        Err(_) => {
            return Err(ErrorCode::MathError);
        },
    };
    match scale_token_after(clamped, share_decimals) {
        Ok(v) => Ok(v),
        Err(_) => Err(ErrorCode::MathError),
    }
}

/// Quotes the assets received for selling an exact amount of shares.
pub fn preview_assets_out(
    pool: &Pool,
    shares_in: u64,
    assets: u64,
    shares: u64,
    asset_decimals: u32,
    share_decimals: u32,
    now: u64,
) -> (r: Result<u64, ErrorCode>)
    ensures
        r == preview_assets_out_spec(
            *pool,
            shares_in,
            assets,
            shares,
            asset_decimals,
            share_decimals,
            now,
        ),
{
    let (ar, sr, aw, sw) = match compute_reserves_and_weights(pool, assets, shares, now) {
        Ok(t) => t,
        Err(_) => {
            return Err(ErrorCode::MathError);
        },
    };
    let (ars, srs) = match scaled_reserves(ar, sr, asset_decimals, share_decimals) {
        Ok(t) => t,
        Err(_) => {
            return Err(ErrorCode::MathError);
        },
    };
    let si = match scale_token_before(shares_in, share_decimals) {
        Ok(v) => v,
        Err(_) => {
            return Err(ErrorCode::MathError);
        },
    };
    let ao = match get_amount_out(si, srs, ars, sw, aw) {
        Ok(v) => v,
        Err(_) => {
            return Err(ErrorCode::MathError);
        },
    };
    let clamped = clamp_asset_leg(ao, si, pool.settings.max_share_price);
    match scale_token_after(clamped, asset_decimals) {
        Ok(v) => Ok(v),
        Err(_) => Err(ErrorCode::MathError),
    }
}

/// Quotes the shares required to withdraw an exact amount of assets.
pub fn preview_shares_in(
    pool: &Pool,
    assets_out: u64,
    assets: u64,
    shares: u64,
    asset_decimals: u32,
    share_decimals: u32,
    now: u64,
) -> (r: Result<u64, ErrorCode>)
    ensures
        r == preview_shares_in_spec(
            *pool,
            assets_out,
            assets,
            shares,
            asset_decimals,
            share_decimals,
            now,
        ),
{
    let (ar, sr, aw, sw) = match compute_reserves_and_weights(pool, assets, shares, now) {
        Ok(t) => t,
        Err(_) => {
            return Err(ErrorCode::MathError);
        },
    };
    let (ars, srs) = match scaled_reserves(ar, sr, asset_decimals, share_decimals) {
        Ok(t) => t,
        Err(_) => {
            return Err(ErrorCode::MathError);
        },
    };
    let ao = match scale_token_before(assets_out, asset_decimals) {
        Ok(v) => v,
        Err(_) => {
            return Err(ErrorCode::MathError);
        },
    };
    let si = match get_amount_in(ao, srs, ars, sw, aw) {
        Ok(v) => v,
        Err(_) => {
            return Err(ErrorCode::MathError);
        },
    };
    let clamped = match clamp_share_leg(si, ao, pool.settings.max_share_price) {
        Ok(v) => v,
        Err(_) => {
            return Err(ErrorCode::MathError);
        },
    };
    match scale_token_after(clamped, share_decimals) {
        Ok(v) => Ok(v),
        Err(_) => Err(ErrorCode::MathError),
    }
}

} // verus!
