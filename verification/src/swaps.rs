//! The four swap operations. Each is a pure state transition: it reads
//! the pool, the caller's statistics, the factory fee configuration, the
//! current vault balances and the timestamp, and either returns the
//! transfer amount together with the updated state, or an error and no
//! change at all.
//!
//! Fee convention, WAD-normalized throughout: a path whose input amount
//! is exact (deposit assets, surrender shares) pays `floor(input *
//! swap_fee / WAD)` out of the input before the curve is consulted; a
//! path whose output is exact pays the fee on top of the quoted input.
//! Buys collect fees on the asset side, sells on the share side.
//!
//! Pool caps: after a buy the net asset balance must stay strictly below
//! `max_assets_in` and cumulative purchases may reach, but not pass,
//! `max_shares_out`, nor pass the vault's share balance. A sell demands
//! the same of the pre-trade state.

use vstd::prelude::*;
use vstd::arithmetic::div_mod::lemma_div_is_ordered;
use vstd::arithmetic::div_mod::lemma_div_multiples_vanish;
use crate::errors::ErrorCode;
use crate::math::lemma_u64_mul_fits_u128;
use crate::previews::{
    preview_assets_in, preview_assets_in_spec, preview_assets_out, preview_assets_out_spec,
    preview_shares_in, preview_shares_in_spec, preview_shares_out, preview_shares_out_spec,
};
use crate::state::{LBPManagerInfo, Pool, UserStats};
use crate::WAD;

verus! {

/// The swap fee on `amount` at the WAD-scaled rate `fee_wad`:
/// `floor(amount * fee_wad / WAD)`.
pub open spec fn swap_fee_amount_spec(amount: u64, fee_wad: u64) -> int {
    amount * fee_wad / (WAD as int)
}

/// Computes the swap fee on `amount`; a rate of at most one whole unit
/// keeps the fee within the amount itself.
pub fn swap_fee_amount(amount: u64, fee_wad: u64) -> (r: u64)
    requires
        fee_wad <= WAD,
    ensures
        r == swap_fee_amount_spec(amount, fee_wad),
        r <= amount,
{
    proof {
        lemma_u64_mul_fits_u128(amount, fee_wad);
        assert((amount as int) * (fee_wad as int) <= (amount as int) * (WAD as int))
            by (nonlinear_arith)
            requires
                fee_wad <= WAD,
                amount >= 0,
        ;
        lemma_div_is_ordered(
            (amount as int) * (fee_wad as int),
            (amount as int) * (WAD as int),
            WAD as int,
        );
        lemma_div_multiples_vanish(amount as int, WAD as int);
    }
    ((amount as u128) * (fee_wad as u128) / (WAD as u128)) as u64
}

/// Buy an exact `shares_out` for at most `max_assets_in` assets.
///
/// The transition: quote `assets_in`, add the fee on top, collect the
/// fee on the asset side, raise cumulative purchases. Checked, in order:
/// the pool is open and unpaused, the quote succeeds, fee and totals fit
/// 64 bits, the total stays within the caller's bound, the pool's asset
/// cap and share caps hold, and the buyer's tally fits. The returned
/// amount is the full asset transfer the runtime must execute.
pub open spec fn swap_assets_for_exact_shares_spec(
    pool: Pool,
    user: UserStats,
    factory: LBPManagerInfo,
    assets: u64,
    shares: u64,
    asset_decimals: u32,
    share_decimals: u32,
    now: u64,
    shares_out: u64,
    max_assets_in: u64,
) -> Result<(Pool, UserStats, u64), ErrorCode> {
    if pool.closed {
        Err(ErrorCode::PoolIsClosed)
    } else if pool.paused {
        Err(ErrorCode::PoolIsPaused)
    } else {
        match preview_assets_in_spec(
            pool,
            shares_out,
            assets,
            shares,
            asset_decimals,
            share_decimals,
            now,
        ) {
            Err(_) => Err(ErrorCode::MathError),
            Ok(assets_in) => {
                let fee = swap_fee_amount_spec(assets_in, factory.swap_fee);
                let total = assets_in + fee;
                if total > u64::MAX {
                    Err(ErrorCode::MathError)
                } else if pool.total_swap_fees_asset + fee > u64::MAX {
                    Err(ErrorCode::MathError)
                } else if total > max_assets_in {
                    Err(ErrorCode::SlippageExceeded)
                } else if assets + assets_in >= pool.settings.max_assets_in {
                    Err(ErrorCode::MaxAssetsInExceeded)
                } else if pool.total_purchased + shares_out > pool.settings.max_shares_out {
                    Err(ErrorCode::MaxSharesExceeded)
                } else if pool.total_purchased + shares_out > shares {
                    Err(ErrorCode::MaxSharesExceeded)
                } else if user.purchased + shares_out > u64::MAX {
                    Err(ErrorCode::MathError)
                } else {
                    Ok(
                        (
                            (Pool {
                                total_swap_fees_asset: (pool.total_swap_fees_asset + fee) as u64,
                                total_purchased: (pool.total_purchased + shares_out) as u64,
                                ..pool
                            }),
                            (UserStats { purchased: (user.purchased + shares_out) as u64, ..user }),
                            total as u64,
                        ),
                    )
                }
            },
        }
    }
}

/// Buys an exact amount of shares; on success the pool and the buyer's
/// statistics hold the new state and the result is the asset amount,
/// fee included, to transfer from the buyer to the pool.
pub fn swap_assets_for_exact_shares(
    pool: &mut Pool,
    user: &mut UserStats,
    factory: &LBPManagerInfo,
    assets: u64,
    shares: u64,
    asset_decimals: u32,
    share_decimals: u32,
    now: u64,
    shares_out: u64,
    max_assets_in: u64,
) -> (r: Result<u64, ErrorCode>)
    ensures
        match r {
            Ok(amount) => swap_assets_for_exact_shares_spec(
                *old(pool),
                *old(user),
                *factory,
                assets,
                shares,
                asset_decimals,
                share_decimals,
                now,
                shares_out,
                max_assets_in,
            ) == Ok::<_, ErrorCode>((*final(pool), *final(user), amount)),
            Err(e) => swap_assets_for_exact_shares_spec(
                *old(pool),
                *old(user),
                *factory,
                assets,
                shares,
                asset_decimals,
                share_decimals,
                now,
                shares_out,
                max_assets_in,
            ) == Err::<(Pool, UserStats, u64), _>(e) && *final(pool) == *old(pool) && *final(user)
                == *old(user),
        },
{
    if pool.closed {
        return Err(ErrorCode::PoolIsClosed);
    }
    if pool.paused {
        return Err(ErrorCode::PoolIsPaused);
    }
    let assets_in = match preview_assets_in(
        pool,
        shares_out,
        assets,
        shares,
        asset_decimals,
        share_decimals,
        now,
    ) {
        Ok(v) => v,
        Err(_) => {
            return Err(ErrorCode::MathError);
        },
    };
    proof {
        lemma_u64_mul_fits_u128(assets_in, factory.swap_fee);
    }
    let fee = (assets_in as u128) * (factory.swap_fee as u128) / (WAD as u128);
    let total = (assets_in as u128) + fee;
    if total > u64::MAX as u128 {
        return Err(ErrorCode::MathError);
    }
    let new_fees = (pool.total_swap_fees_asset as u128) + fee;
    if new_fees > u64::MAX as u128 {
        return Err(ErrorCode::MathError);
    }
    if total > max_assets_in as u128 {
        return Err(ErrorCode::SlippageExceeded);
    }
    if (assets as u128) + (assets_in as u128) >= pool.settings.max_assets_in as u128 {
        return Err(ErrorCode::MaxAssetsInExceeded);
    }
    let after = (pool.total_purchased as u128) + (shares_out as u128);
    if after > pool.settings.max_shares_out as u128 {
        return Err(ErrorCode::MaxSharesExceeded);
    }
    if after > shares as u128 {
        return Err(ErrorCode::MaxSharesExceeded);
    }
    if (user.purchased as u128) + (shares_out as u128) > u64::MAX as u128 {
        return Err(ErrorCode::MathError);
    }
    pool.total_swap_fees_asset = new_fees as u64;
    pool.total_purchased = after as u64;
    user.purchased = user.purchased + shares_out;
    Ok(total as u64)
}

/// Deposit an exact `assets_in` for at least `min_shares_out` shares.
///
/// The fee is taken out of the deposit, the remainder is priced through
/// the curve, and cumulative purchases rise by the quoted shares. The
/// returned amount is the quoted share amount credited to the buyer.
pub open spec fn swap_exact_assets_for_shares_spec(
    pool: Pool,
    user: UserStats,
    factory: LBPManagerInfo,
    assets: u64,
    shares: u64,
    asset_decimals: u32,
    share_decimals: u32,
    now: u64,
    assets_in: u64,
    min_shares_out: u64,
) -> Result<(Pool, UserStats, u64), ErrorCode> {
    if pool.closed {
        Err(ErrorCode::PoolIsClosed)
    } else if pool.paused {
        Err(ErrorCode::PoolIsPaused)
    } else {
        let fee = swap_fee_amount_spec(assets_in, factory.swap_fee);
        if fee > assets_in {
            Err(ErrorCode::MathError)
        } else if pool.total_swap_fees_asset + fee > u64::MAX {
            Err(ErrorCode::MathError)
        } else {
            match preview_shares_out_spec(
                pool,
                (assets_in - fee) as u64,
                assets,
                shares,
                asset_decimals,
                share_decimals,
                now,
            ) {
                Err(_) => Err(ErrorCode::MathError),
                Ok(shares_out) => {
                    if shares_out < min_shares_out {
                        Err(ErrorCode::SlippageExceeded)
                    } else if assets + assets_in - fee >= pool.settings.max_assets_in {
                        Err(ErrorCode::MaxAssetsInExceeded)
                    } else if pool.total_purchased + shares_out > pool.settings.max_shares_out {
                        Err(ErrorCode::MaxSharesExceeded)
                    } else if pool.total_purchased + shares_out > shares {
                        Err(ErrorCode::MaxSharesExceeded)
                    } else if user.purchased + shares_out > u64::MAX {
                        Err(ErrorCode::MathError)
                    } else {
                        Ok(
                            (
                                (Pool {
                                    total_swap_fees_asset: (pool.total_swap_fees_asset
                                        + fee) as u64,
                                    total_purchased: (pool.total_purchased + shares_out) as u64,
                                    ..pool
                                }),
                                (UserStats {
                                    purchased: (user.purchased + shares_out) as u64,
                                    ..user
                                }),
                                shares_out,
                            ),
                        )
                    }
                },
            }
        }
    }
}

/// Deposits an exact amount of assets; on success the result is the
/// share amount credited to the buyer, and the runtime transfers
/// `assets_in` from the buyer to the pool.
pub fn swap_exact_assets_for_shares(
    pool: &mut Pool,
    user: &mut UserStats,
    factory: &LBPManagerInfo,
    assets: u64,
    shares: u64,
    asset_decimals: u32,
    share_decimals: u32,
    now: u64,
    assets_in: u64,
    min_shares_out: u64,
) -> (r: Result<u64, ErrorCode>)
    ensures
        match r {
            Ok(amount) => swap_exact_assets_for_shares_spec(
                *old(pool),
                *old(user),
                *factory,
                assets,
                shares,
                asset_decimals,
                share_decimals,
                now,
                assets_in,
                min_shares_out,
            ) == Ok::<_, ErrorCode>((*final(pool), *final(user), amount)),
            Err(e) => swap_exact_assets_for_shares_spec(
                *old(pool),
                *old(user),
                *factory,
                assets,
                shares,
                asset_decimals,
                share_decimals,
                now,
                assets_in,
                min_shares_out,
            ) == Err::<(Pool, UserStats, u64), _>(e) && *final(pool) == *old(pool) && *final(user)
                == *old(user),
        },
{
    if pool.closed {
        return Err(ErrorCode::PoolIsClosed);
    }
    if pool.paused {
        return Err(ErrorCode::PoolIsPaused);
    }
    proof {
        lemma_u64_mul_fits_u128(assets_in, factory.swap_fee);
    }
    let fee = (assets_in as u128) * (factory.swap_fee as u128) / (WAD as u128);
    if fee > assets_in as u128 {
        return Err(ErrorCode::MathError);
    }
    let new_fees = (pool.total_swap_fees_asset as u128) + fee;
    if new_fees > u64::MAX as u128 {
        return Err(ErrorCode::MathError);
    }
    let net = assets_in - (fee as u64);
    let shares_out = match preview_shares_out(
        pool,
        net,
        assets,
        shares,
        asset_decimals,
        share_decimals,
        now,
    ) {
        Ok(v) => v,
        Err(_) => {
            return Err(ErrorCode::MathError);
        },
    };
    if shares_out < min_shares_out {
        return Err(ErrorCode::SlippageExceeded);
    }
    if (assets as u128) + (net as u128) >= pool.settings.max_assets_in as u128 {
        return Err(ErrorCode::MaxAssetsInExceeded);
    }
    let after = (pool.total_purchased as u128) + (shares_out as u128);
    if after > pool.settings.max_shares_out as u128 {
        return Err(ErrorCode::MaxSharesExceeded);
    }
    if after > shares as u128 {
        return Err(ErrorCode::MaxSharesExceeded);
    }
    if (user.purchased as u128) + (shares_out as u128) > u64::MAX as u128 {
        return Err(ErrorCode::MathError);
    }
    pool.total_swap_fees_asset = new_fees as u64;
    pool.total_purchased = after as u64;
    user.purchased = user.purchased + shares_out;
    Ok(shares_out)
}

/// Surrender an exact `shares_in` for at least `min_assets_out` assets.
///
/// The fee is taken out of the surrendered shares and collected on the
/// share side; the remainder is priced through the curve. The seller's
/// tally and cumulative purchases both fall by the full `shares_in`.
/// The returned amount is the asset transfer to the seller.
pub open spec fn swap_exact_shares_for_assets_spec(
    pool: Pool,
    user: UserStats,
    factory: LBPManagerInfo,
    assets: u64,
    shares: u64,
    asset_decimals: u32,
    share_decimals: u32,
    now: u64,
    shares_in: u64,
    min_assets_out: u64,
) -> Result<(Pool, UserStats, u64), ErrorCode> {
    if pool.closed {
        Err(ErrorCode::PoolIsClosed)
    } else if pool.paused {
        Err(ErrorCode::PoolIsPaused)
    } else {
        let fee = swap_fee_amount_spec(shares_in, factory.swap_fee);
        if fee > shares_in {
            Err(ErrorCode::MathError)
        } else if pool.total_swap_fees_share + fee > u64::MAX {
            Err(ErrorCode::MathError)
        } else {
            match preview_assets_out_spec(
                pool,
                (shares_in - fee) as u64,
                assets,
                shares,
                asset_decimals,
                share_decimals,
                now,
            ) {
                Err(_) => Err(ErrorCode::MathError),
                Ok(assets_out) => {
                    if assets_out < min_assets_out {
                        Err(ErrorCode::SlippageExceeded)
                    } else if assets >= pool.settings.max_assets_in {
                        Err(ErrorCode::MaxAssetsInExceeded)
                    } else if pool.total_purchased > pool.settings.max_shares_out {
                        Err(ErrorCode::MaxSharesExceeded)
                    } else if pool.total_purchased > shares {
                        Err(ErrorCode::MaxSharesExceeded)
                    } else if user.purchased < shares_in {
                        Err(ErrorCode::MathError)
                    } else if pool.total_purchased < shares_in {
                        Err(ErrorCode::MathError)
                    } else {
                        Ok(
                            (
                                (Pool {
                                    total_swap_fees_share: (pool.total_swap_fees_share
                                        + fee) as u64,
                                    total_purchased: (pool.total_purchased - shares_in) as u64,
                                    ..pool
                                }),
                                (UserStats {
                                    purchased: (user.purchased - shares_in) as u64,
                                    ..user
                                }),
                                assets_out,
                            ),
                        )
                    }
                },
            }
        }
    }
}

/// Sells an exact amount of shares; on success the result is the asset
/// amount the runtime transfers from the pool to the seller.
pub fn swap_exact_shares_for_assets(
    pool: &mut Pool,
    user: &mut UserStats,
    factory: &LBPManagerInfo,
    assets: u64,
    shares: u64,
    asset_decimals: u32,
    share_decimals: u32,
    now: u64,
    shares_in: u64,
    min_assets_out: u64,
) -> (r: Result<u64, ErrorCode>)
    ensures
        match r {
            Ok(amount) => swap_exact_shares_for_assets_spec(
                *old(pool),
                *old(user),
                *factory,
                assets,
                shares,
                asset_decimals,
                share_decimals,
                now,
                shares_in,
                min_assets_out,
            ) == Ok::<_, ErrorCode>((*final(pool), *final(user), amount)),
            Err(e) => swap_exact_shares_for_assets_spec(
                *old(pool),
                *old(user),
                *factory,
                assets,
                shares,
                asset_decimals,
                share_decimals,
                now,
                shares_in,
                min_assets_out,
            ) == Err::<(Pool, UserStats, u64), _>(e) && *final(pool) == *old(pool) && *final(user)
                == *old(user),
        },
{
    if pool.closed {
        return Err(ErrorCode::PoolIsClosed);
    }
    if pool.paused {
        return Err(ErrorCode::PoolIsPaused);
    }
    proof {
        lemma_u64_mul_fits_u128(shares_in, factory.swap_fee);
    }
    let fee = (shares_in as u128) * (factory.swap_fee as u128) / (WAD as u128);
    if fee > shares_in as u128 {
        return Err(ErrorCode::MathError);
    }
    let new_fees = (pool.total_swap_fees_share as u128) + fee;
    if new_fees > u64::MAX as u128 {
        return Err(ErrorCode::MathError);
    }
    let net = shares_in - (fee as u64);
    let assets_out = match preview_assets_out(
        pool,
        net,
        assets,
        shares,
        asset_decimals,
        share_decimals,
        now,
    ) {
        Ok(v) => v,
        Err(_) => {
            return Err(ErrorCode::MathError);
        },
    };
    if assets_out < min_assets_out {
        return Err(ErrorCode::SlippageExceeded);
    }
    if assets >= pool.settings.max_assets_in {
        return Err(ErrorCode::MaxAssetsInExceeded);
    }
    if pool.total_purchased > pool.settings.max_shares_out {
        return Err(ErrorCode::MaxSharesExceeded);
    }
    if pool.total_purchased > shares {
        return Err(ErrorCode::MaxSharesExceeded);
    }
    if user.purchased < shares_in {
        return Err(ErrorCode::MathError);
    }
    if pool.total_purchased < shares_in {
        return Err(ErrorCode::MathError);
    }
    pool.total_swap_fees_share = new_fees as u64;
    pool.total_purchased = pool.total_purchased - shares_in;
    user.purchased = user.purchased - shares_in;
    Ok(assets_out)
}

/// Withdraw an exact `assets_out` for at most `max_shares_in` shares.
///
/// The share cost is quoted through the curve, the fee is added on top
/// and collected on the share side, and the seller's tally and
/// cumulative purchases fall by the full surrendered amount. The
/// returned amount is that full share cost, fee included.
pub open spec fn swap_shares_for_exact_assets_spec(
    pool: Pool,
    user: UserStats,
    factory: LBPManagerInfo,
    assets: u64,
    shares: u64,
    asset_decimals: u32,
    share_decimals: u32,
    now: u64,
    assets_out: u64,
    max_shares_in: u64,
) -> Result<(Pool, UserStats, u64), ErrorCode> {
    if pool.closed {
        Err(ErrorCode::PoolIsClosed)
    } else if pool.paused {
        Err(ErrorCode::PoolIsPaused)
    } else {
        match preview_shares_in_spec(
            pool,
            assets_out,
            assets,
            shares,
            asset_decimals,
            share_decimals,
            now,
        ) {
            Err(_) => Err(ErrorCode::MathError),
            Ok(shares_in) => {
                let fee = swap_fee_amount_spec(shares_in, factory.swap_fee);
                let total = shares_in + fee;
                if total > u64::MAX {
                    Err(ErrorCode::MathError)
                } else if pool.total_swap_fees_share + fee > u64::MAX {
                    Err(ErrorCode::MathError)
                } else if total > max_shares_in {
                    Err(ErrorCode::SlippageExceeded)
                } else if assets >= pool.settings.max_assets_in {
                    Err(ErrorCode::MaxAssetsInExceeded)
                } else if pool.total_purchased > pool.settings.max_shares_out {
                    Err(ErrorCode::MaxSharesExceeded)
                } else if pool.total_purchased > shares {
                    Err(ErrorCode::MaxSharesExceeded)
                } else if user.purchased < total {
                    Err(ErrorCode::MathError)
                } else if pool.total_purchased < total {
                    Err(ErrorCode::MathError)
                } else {
                    Ok(
                        (
                            (Pool {
                                total_swap_fees_share: (pool.total_swap_fees_share + fee) as u64,
                                total_purchased: (pool.total_purchased - total) as u64,
                                ..pool
                            }),
                            (UserStats { purchased: (user.purchased - total) as u64, ..user }),
                            total as u64,
                        ),
                    )
                }
            },
        }
    }
}

/// Sells shares for an exact asset amount; on success the result is the
/// share amount, fee included, the seller surrenders, and the runtime
/// transfers `assets_out` from the pool to the seller.
pub fn swap_shares_for_exact_assets(
    pool: &mut Pool,
    user: &mut UserStats,
    factory: &LBPManagerInfo,
    assets: u64,
    shares: u64,
    asset_decimals: u32,
    share_decimals: u32,
    now: u64,
    assets_out: u64,
    max_shares_in: u64,
) -> (r: Result<u64, ErrorCode>)
    ensures
        match r {
            Ok(amount) => swap_shares_for_exact_assets_spec(
                *old(pool),
                *old(user),
                *factory,
                assets,
                shares,
                asset_decimals,
                share_decimals,
                now,
                assets_out,
                max_shares_in,
            ) == Ok::<_, ErrorCode>((*final(pool), *final(user), amount)),
            Err(e) => swap_shares_for_exact_assets_spec(
                *old(pool),
                *old(user),
                *factory,
                assets,
                shares,
                asset_decimals,
                share_decimals,
                now,
                assets_out,
                max_shares_in,
            ) == Err::<(Pool, UserStats, u64), _>(e) && *final(pool) == *old(pool) && *final(user)
                == *old(user),
        },
{
    if pool.closed {
        return Err(ErrorCode::PoolIsClosed);
    }
    if pool.paused {
        return Err(ErrorCode::PoolIsPaused);
    }
    let shares_in = match preview_shares_in(
        pool,
        assets_out,
        assets,
        shares,
        asset_decimals,
        share_decimals,
        now,
    ) {
        Ok(v) => v,
        Err(_) => {
            return Err(ErrorCode::MathError);
        },
    };
    proof {
        lemma_u64_mul_fits_u128(shares_in, factory.swap_fee);
    }
    let fee = (shares_in as u128) * (factory.swap_fee as u128) / (WAD as u128);
    let total = (shares_in as u128) + fee;
    if total > u64::MAX as u128 {
        return Err(ErrorCode::MathError);
    }
    let new_fees = (pool.total_swap_fees_share as u128) + fee;
    if new_fees > u64::MAX as u128 {
        return Err(ErrorCode::MathError);
    }
    if total > max_shares_in as u128 {
        return Err(ErrorCode::SlippageExceeded);
    }
    if assets >= pool.settings.max_assets_in {
        return Err(ErrorCode::MaxAssetsInExceeded);
    }
    if pool.total_purchased > pool.settings.max_shares_out {
        return Err(ErrorCode::MaxSharesExceeded);
    }
    if pool.total_purchased > shares {
        return Err(ErrorCode::MaxSharesExceeded);
    }
    if (user.purchased as u128) < total {
        return Err(ErrorCode::MathError);
    }
    if (pool.total_purchased as u128) < total {
        return Err(ErrorCode::MathError);
    }
    pool.total_swap_fees_share = new_fees as u64;
    pool.total_purchased = pool.total_purchased - (total as u64);
    user.purchased = user.purchased - (total as u64);
    Ok(total as u64)
}

} // verus!
