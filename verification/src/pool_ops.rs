//! Pool lifecycle: validated creation, unpausing, and the closing
//! settlement that splits the vaults between fee recipient and owner.

use vstd::prelude::*;
use vstd::arithmetic::div_mod::lemma_div_is_ordered;
use vstd::arithmetic::div_mod::lemma_div_multiples_vanish;
use crate::errors::ErrorCode;
use crate::math::lemma_u64_mul_fits_u128;
use crate::state::{Pool, PoolSettings};
use crate::{MAX_WEIGHT, MIN_WEIGHT, WAD};

verus! {

/// Validation at pool creation, in the order tested: tokens must be
/// distinct and nonzero; the sale window must not be empty; when vesting
/// is enabled the cliff must not precede the sale's end and must precede
/// the vesting end; both weights must lie in the configured band; and
/// the pool must be funded by real or virtual assets. A valid
/// configuration yields a fresh pool: open, unpaused, all totals zero.
pub open spec fn create_pool_spec(settings: PoolSettings, assets: u64) -> Result<Pool, ErrorCode> {
    if settings.share == settings.asset || settings.share == 0 || settings.asset == 0 {
        Err(ErrorCode::InvalidAssetOrShare)
    } else if settings.sale_end <= settings.sale_start {
        Err(ErrorCode::SalePeriodLow)
    } else if settings.sale_end < settings.vest_end && settings.sale_end > settings.vest_cliff {
        Err(ErrorCode::InvalidVestCliff)
    } else if settings.sale_end < settings.vest_end && settings.vest_cliff >= settings.vest_end {
        Err(ErrorCode::InvalidVestEnd)
    } else if settings.weight_start < MIN_WEIGHT || settings.weight_start > MAX_WEIGHT
        || settings.weight_end < MIN_WEIGHT || settings.weight_end > MAX_WEIGHT {
        Err(ErrorCode::InvalidWeightConfig)
    } else if assets == 0 && settings.virtual_assets == 0 {
        Err(ErrorCode::InvalidAssetValue)
    } else {
        Ok(
            (Pool {
                settings,
                closed: false,
                paused: false,
                total_swap_fees_asset: 0,
                total_swap_fees_share: 0,
                total_purchased: 0,
                total_referred: 0,
            }),
        )
    }
}

/// Validates the settings against the initial asset deposit and creates
/// the pool; a created pool is well formed.
pub fn create_pool(settings: &PoolSettings, assets: u64) -> (r: Result<Pool, ErrorCode>)
    ensures
        r == create_pool_spec(*settings, assets),
        r matches Ok(p) ==> p.wf(),
{
    if settings.share == settings.asset || settings.share == 0 || settings.asset == 0 {
        return Err(ErrorCode::InvalidAssetOrShare);
    }
    if settings.sale_end <= settings.sale_start {
        return Err(ErrorCode::SalePeriodLow);
    }
    if settings.sale_end < settings.vest_end {
        if settings.sale_end > settings.vest_cliff {
            return Err(ErrorCode::InvalidVestCliff);
        }
        if settings.vest_cliff >= settings.vest_end {
            return Err(ErrorCode::InvalidVestEnd);
        }
    }
    if settings.weight_start < MIN_WEIGHT || settings.weight_start > MAX_WEIGHT
        || settings.weight_end < MIN_WEIGHT || settings.weight_end > MAX_WEIGHT {
        return Err(ErrorCode::InvalidWeightConfig);
    }
    if assets == 0 && settings.virtual_assets == 0 {
        return Err(ErrorCode::InvalidAssetValue);
    }
    Ok(
        Pool {
            settings: *settings,
            closed: false,
            paused: false,
            total_swap_fees_asset: 0,
            total_swap_fees_share: 0,
            total_purchased: 0,
            total_referred: 0,
        },
    )
}

/// Lifts the pause flag of an open pool; a closed pool cannot be
/// unpaused.
pub fn unpause_pool(pool: &mut Pool) -> (r: Result<(), ErrorCode>)
    ensures
        match r {
            Ok(()) => !old(pool).closed && *final(pool) == (Pool { paused: false, ..*old(pool) }),
            Err(e) => e == ErrorCode::PoolIsClosed && old(pool).closed && *final(pool) == *old(
                pool,
            ),
        },
{
    if pool.closed {
        return Err(ErrorCode::PoolIsClosed);
    }
    if pool.paused {
        pool.paused = false;
    }
    Ok(())
}

/// The transfers settling a closed pool, all in raw token units:
/// the fee recipient receives the platform fee plus the collected swap
/// fees on each side; the owner receives the remaining assets and every
/// unsold share.
#[derive(Clone, Copy, Debug, PartialEq, Eq, Structural)]
pub struct ClosePlan {
    /// Platform fee on the net traded asset volume.
    pub platform_fees: u64,
    /// Asset transfer to the fee recipient: platform fee plus collected
    /// asset-side swap fees.
    pub fee_asset_transfer: u64,
    /// Share transfer to the fee recipient: collected share-side swap
    /// fees.
    pub fee_share_transfer: u64,
    /// Asset transfer to the pool owner: the net volume minus the
    /// platform fee.
    pub owner_assets: u64,
    /// Share transfer to the pool owner: vault shares never sold.
    pub unsold_shares: u64,
}

/// Closing an already-closed pool is disallowed. Otherwise the platform
/// fee is `floor((assets - collected asset fees) * platform_fee / WAD)`
/// and the vaults are split as `ClosePlan` describes; any underflow or
/// overflow in that split is a math error and leaves the pool open.
pub open spec fn close_spec(pool: Pool, platform_fee: u64, assets: u64, shares: u64) -> Result<
    (Pool, ClosePlan),
    ErrorCode,
> {
    if pool.closed {
        Err(ErrorCode::ClosingDisallowed)
    } else if pool.total_swap_fees_asset > assets {
        Err(ErrorCode::MathError)
    } else if (assets - pool.total_swap_fees_asset) * platform_fee / (WAD as int) > u64::MAX {
        Err(ErrorCode::MathError)
    } else if (assets - pool.total_swap_fees_asset) * platform_fee / (WAD as int) > assets
        - pool.total_swap_fees_asset {
        Err(ErrorCode::MathError)
    } else if (assets - pool.total_swap_fees_asset) * platform_fee / (WAD as int)
        + pool.total_swap_fees_asset > u64::MAX {
        Err(ErrorCode::MathError)
    } else if pool.total_purchased > shares {
        Err(ErrorCode::MathError)
    } else {
        let total_assets = assets - pool.total_swap_fees_asset;
        let platform_fees = total_assets * platform_fee / (WAD as int);
        Ok(
            (
                (Pool { closed: true, ..pool }),
                (ClosePlan {
                    platform_fees: platform_fees as u64,
                    fee_asset_transfer: (platform_fees + pool.total_swap_fees_asset) as u64,
                    fee_share_transfer: pool.total_swap_fees_share,
                    owner_assets: (total_assets - platform_fees) as u64,
                    unsold_shares: (shares - pool.total_purchased) as u64,
                }),
            ),
        )
    }
}

/// Closes the pool and computes the settlement transfers, exactly as
/// `close_spec` defines them; on failure the pool is unchanged.
pub fn close(pool: &mut Pool, platform_fee: u64, assets: u64, shares: u64) -> (r: Result<
    ClosePlan,
    ErrorCode,
>)
    ensures
        match r {
            Ok(plan) => close_spec(*old(pool), platform_fee, assets, shares) == Ok::<
                _,
                ErrorCode,
            >((*final(pool), plan)),
            Err(e) => close_spec(*old(pool), platform_fee, assets, shares) == Err::<
                (Pool, ClosePlan),
                _,
            >(e) && *final(pool) == *old(pool),
        },
{
    if pool.closed {
        return Err(ErrorCode::ClosingDisallowed);
    }
    if pool.total_swap_fees_asset > assets {
        return Err(ErrorCode::MathError);
    }
    let total_assets = assets - pool.total_swap_fees_asset;
    proof {
        lemma_u64_mul_fits_u128(total_assets, platform_fee);
    }
    let platform_fees = (total_assets as u128) * (platform_fee as u128) / (WAD as u128);
    if platform_fees > u64::MAX as u128 {
        return Err(ErrorCode::MathError);
    }
    if platform_fees > total_assets as u128 {
        return Err(ErrorCode::MathError);
    }
    let fee_asset_transfer = platform_fees + (pool.total_swap_fees_asset as u128);
    if fee_asset_transfer > u64::MAX as u128 {
        return Err(ErrorCode::MathError);
    }
    if pool.total_purchased > shares {
        return Err(ErrorCode::MathError);
    }
    let plan = ClosePlan {
        platform_fees: platform_fees as u64,
        fee_asset_transfer: fee_asset_transfer as u64,
        fee_share_transfer: pool.total_swap_fees_share,
        owner_assets: total_assets - (platform_fees as u64),
        unsold_shares: shares - pool.total_purchased,
    };
    pool.closed = true;
    Ok(plan)
}

} // verus!
