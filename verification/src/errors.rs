//! The failure taxonomy of the pool core. Every operation is all-or-nothing:
//! an error means the caller discards any proposed state and transfers.

use vstd::prelude::*;

verus! {

/// Every failure the core can report. Each operation's contract states
/// exactly which inputs produce which variant.
#[derive(Clone, Copy, Debug, PartialEq, Eq, Structural)]
pub enum ErrorCode {
    /// An internal computation overflowed, underflowed, divided by zero,
    /// or left the power routine's domain.
    MathError,
    /// A swap's input side exceeds 30% of the corresponding reserve.
    AmountInTooLarge,
    /// A swap's output side exceeds 30% of the corresponding reserve.
    AmountOutTooLarge,
    /// The weight ratio is too large an exponent for the power routine.
    UnsafePower,
    /// A quoted amount violates the caller's min/max bound.
    SlippageExceeded,
    /// The pool-level cap on deposited assets would be breached.
    MaxAssetsInExceeded,
    /// The pool-level cap on sold shares would be breached, or more
    /// shares would be sold than the vault holds.
    MaxSharesExceeded,
    /// A configured weight lies outside [0.01, 0.99] of WAD.
    InvalidWeightConfig,
    /// The vesting cliff precedes the end of the sale.
    InvalidVestCliff,
    /// The vesting end does not follow the vesting cliff.
    InvalidVestEnd,
    /// Asset and share tokens are equal, or one of them is unset.
    InvalidAssetOrShare,
    /// Neither real nor virtual assets fund the pool.
    InvalidAssetValue,
    /// The sale window is empty or inverted.
    SalePeriodLow,
    /// Redemption was attempted before the pool closed.
    RedeemingDisallowed,
    /// Nothing is claimable for this user at this time.
    NoSharesToClaim,
    /// A configured fee exceeds the 1,000-bips ceiling.
    MaxFeeExceeded,
    /// The pool is already closed and cannot be closed again.
    ClosingDisallowed,
    /// The pool is paused.
    PoolIsPaused,
    /// The pool is closed.
    PoolIsClosed,
}

impl ErrorCode {
    /// A short description, for callers that surface the failure.
    pub fn message(&self) -> (r: &'static str) {
        match self {
            ErrorCode::MathError => "math error",
            ErrorCode::AmountInTooLarge => "amount in too large",
            ErrorCode::AmountOutTooLarge => "amount out too large",
            ErrorCode::UnsafePower => "unsafe power",
            ErrorCode::SlippageExceeded => "slippage exceeded",
            ErrorCode::MaxAssetsInExceeded => "max assets in exceeded",
            ErrorCode::MaxSharesExceeded => "max shares exceeded",
            ErrorCode::InvalidWeightConfig => "invalid weight config",
            ErrorCode::InvalidVestCliff => "invalid vest cliff",
            ErrorCode::InvalidVestEnd => "invalid vest end",
            ErrorCode::InvalidAssetOrShare => "invalid asset or share",
            ErrorCode::InvalidAssetValue => "invalid asset value",
            ErrorCode::SalePeriodLow => "sale period low",
            ErrorCode::RedeemingDisallowed => "redeeming disallowed",
            ErrorCode::NoSharesToClaim => "no shares to claim",
            ErrorCode::MaxFeeExceeded => "max fee exceeded",
            ErrorCode::ClosingDisallowed => "closing disallowed",
            ErrorCode::PoolIsPaused => "pool is paused",
            ErrorCode::PoolIsClosed => "pool is closed",
        }
    }
}

} // verus!
