//! The data the pool core computes over: immutable pool settings, the
//! mutable per-pool state, per-user purchase statistics, and the factory
//! fee configuration. Token identities are plain nonzero numbers; the
//! runtime that owns real token accounts maps them to its own keys.

use vstd::prelude::*;
use crate::{MAX_FEE_WAD, MAX_WEIGHT, MIN_WEIGHT};

verus! {

/// Immutable configuration of one pool, fixed at creation.
///
/// Weights and the share-price cap are WAD-scaled fractions; timestamps
/// are seconds. `virtual_assets` and `virtual_shares` pad the real vault
/// balances to shape the initial price curve.
#[derive(Clone, Copy, Debug, PartialEq, Eq, Structural)]
pub struct PoolSettings {
    /// Identity of the asset token; nonzero.
    pub asset: u64,
    /// Identity of the share token; nonzero, distinct from `asset`.
    pub share: u64,
    pub virtual_assets: u64,
    pub virtual_shares: u64,
    /// Cap on the WAD-scaled price paid per share.
    pub max_share_price: u64,
    /// Cap on cumulative shares sold.
    pub max_shares_out: u64,
    /// Cap (exclusive) on the pool's net asset balance.
    pub max_assets_in: u64,
    /// Asset weight when the sale opens, in [MIN_WEIGHT, MAX_WEIGHT].
    pub weight_start: u64,
    /// Asset weight when the sale closes, in [MIN_WEIGHT, MAX_WEIGHT].
    pub weight_end: u64,
    pub sale_start: u64,
    pub sale_end: u64,
    /// Before this moment nothing vested is claimable.
    pub vest_cliff: u64,
    /// When vesting completes; vesting is enabled iff `sale_end < vest_end`.
    pub vest_end: u64,
    /// Whether holders may sell shares back into the pool.
    pub selling_allowed: bool,
}

impl PoolSettings {
    /// The invariant pool creation establishes: a non-empty sale window,
    /// weights inside the configured band, distinct nonzero tokens, and a
    /// vesting window that opens no earlier than the sale ends.
    pub open spec fn wf(self) -> bool {
        &&& self.asset != 0
        &&& self.share != 0
        &&& self.asset != self.share
        &&& self.sale_start < self.sale_end
        &&& MIN_WEIGHT <= self.weight_start <= MAX_WEIGHT
        &&& MIN_WEIGHT <= self.weight_end <= MAX_WEIGHT
        &&& (self.sale_end < self.vest_end ==> self.sale_end <= self.vest_cliff
            && self.vest_cliff < self.vest_end)
    }

    /// Shares vest over time only when the vesting window extends past
    /// the sale.
    pub open spec fn vesting_enabled(self) -> bool {
        self.sale_end < self.vest_end
    }
}

/// Mutable state of one pool; created zeroed, mutated only by the
/// operations of this crate, persisted by the caller.
#[derive(Clone, Copy, Debug, PartialEq, Eq, Structural)]
pub struct Pool {
    pub settings: PoolSettings,
    pub closed: bool,
    pub paused: bool,
    /// Swap fees collected on the asset side, excluded from the
    /// tradeable reserve.
    pub total_swap_fees_asset: u64,
    /// Swap fees collected on the share side.
    pub total_swap_fees_share: u64,
    /// Cumulative shares sold to buyers: a liability, not reserve.
    pub total_purchased: u64,
    /// Cumulative referred asset volume.
    pub total_referred: u64,
}

impl Pool {
    /// A pool is well formed when its settings are.
    pub open spec fn wf(self) -> bool {
        self.settings.wf()
    }
}

/// Per-user, per-pool purchase and redemption statistics.
#[derive(Clone, Copy, Debug, PartialEq, Eq, Structural)]
pub struct UserStats {
    /// Cumulative shares bought (reduced when the user sells back).
    pub purchased: u64,
    /// Cumulative shares redeemed; never exceeds `purchased`.
    pub claimed: u64,
}

impl UserStats {
    /// The vesting calculator maintains this bound.
    pub open spec fn wf(self) -> bool {
        self.claimed <= self.purchased
    }
}

/// Fresh statistics for a user's first interaction with a pool.
pub fn create_user_stats() -> (r: UserStats)
    ensures
        r == (UserStats { purchased: 0, claimed: 0 }),
        r.wf(),
{
    UserStats { purchased: 0, claimed: 0 }
}

/// Factory-level fee configuration and administration record. Fees are
/// WAD-scaled fractions capped at `MAX_FEE_WAD`; read-only to the math.
#[derive(Clone, Copy, Debug, PartialEq, Eq, Structural)]
pub struct LBPManagerInfo {
    pub id: u64,
    /// Identity of the authority allowed to change this record.
    pub authority: u64,
    /// Identity of the account fees are sent to on close.
    pub fee_recipient: u64,
    pub platform_fee: u64,
    pub referrer_fee: u64,
    pub swap_fee: u64,
}

impl LBPManagerInfo {
    /// Every configured fee respects the 1,000-bips ceiling.
    pub open spec fn wf(self) -> bool {
        &&& self.platform_fee <= MAX_FEE_WAD
        &&& self.referrer_fee <= MAX_FEE_WAD
        &&& self.swap_fee <= MAX_FEE_WAD
    }
}

} // verus!
