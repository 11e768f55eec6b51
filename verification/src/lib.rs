//! Core mathematics of a weighted, time-decaying liquidity-bootstrapping
//! pool (LBP).
//!
//! A seller deposits an asset token and a share token; over a configured
//! sale window the pricing weight between the two shifts linearly from a
//! start weight to an end weight. Buyers swap along a weighted
//! constant-value curve, subject to per-swap fees, price and volume caps,
//! and slippage limits; purchased shares may vest linearly and are
//! redeemed after the pool closes.
//!
//! This crate is the pure computation layer: every operation is a
//! deterministic function of its explicit inputs (settings, a state
//! snapshot, vault balances and a caller-supplied timestamp). Token
//! transfers, account persistence and authorization belong to the
//! surrounding runtime, which applies the returned state and transfer
//! amounts atomically or not at all.

use vstd::prelude::*;

pub mod admin;
pub mod errors;
pub mod laws;
pub mod math;
pub mod pool_ops;
pub mod previews;
pub mod pricing;
pub mod scale;
pub mod state;
pub mod swaps;
pub mod vesting;
pub mod weights;

verus! {

/// One whole unit in the fixed-point scale used for weights, fees and
/// prices: amounts scaled to this base carry nine decimals.
pub const WAD: u64 = 1_000_000_000;

/// Smallest weight a pool may be configured with (0.01 of WAD).
pub const MIN_WEIGHT: u64 = 10_000_000;

/// Largest weight a pool may be configured with (0.99 of WAD).
pub const MAX_WEIGHT: u64 = 990_000_000;

/// Ceiling on every configured fee: 1,000 bips, i.e. 0.1 of WAD.
pub const MAX_FEE_WAD: u64 = 100_000_000;

} // verus!
