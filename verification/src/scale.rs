//! Fixed-point scaler: converts raw token amounts between a token's
//! native decimal precision and the internal nine-decimal (WAD) base.
//!
//! Both directions truncate toward zero; the round-trip laws in `laws`
//! pin down exactly which dust that truncation discards.

use vstd::prelude::*;
use vstd::arithmetic::power::pow;
use vstd::arithmetic::power::lemma_pow_increases;
use vstd::arithmetic::power::lemma_pow_positive;
use vstd::arithmetic::power::lemma_pow_adds;
use vstd::arithmetic::power::lemma_pow0;
use vstd::arithmetic::power::lemma_pow1;
use crate::errors::ErrorCode;

verus! {

/// Decimal count of the internal WAD base.
pub const BASE_DECIMALS: u32 = 9;

/// Scaling a raw amount up to the internal base multiplies by
/// `10^(9 - decimals)`; an amount that would no longer fit 64 bits is a
/// math error. Tokens with more than nine decimals scale down instead,
/// truncating.
pub open spec fn scale_token_before_spec(amount: u64, decimals: u32) -> Result<u64, ErrorCode> {
    if decimals <= BASE_DECIMALS {
        let scaled = amount * pow(10, (BASE_DECIMALS - decimals) as nat);
        if scaled > u64::MAX {
            Err(ErrorCode::MathError)
        } else {
            Ok(scaled as u64)
        }
    } else {
        Ok(((amount as int) / pow(10, (decimals - BASE_DECIMALS) as nat)) as u64)
    }
}

/// The inverse direction: back from the internal base to the token's
/// native precision, truncating where the token is coarser and failing
/// with a math error where multiplying up would overflow.
pub open spec fn scale_token_after_spec(amount: u64, decimals: u32) -> Result<u64, ErrorCode> {
    if decimals <= BASE_DECIMALS {
        Ok(((amount as int) / pow(10, (BASE_DECIMALS - decimals) as nat)) as u64)
    } else {
        let scaled = amount * pow(10, (decimals - BASE_DECIMALS) as nat);
        if scaled > u64::MAX {
            Err(ErrorCode::MathError)
        } else {
            Ok(scaled as u64)
        }
    }
}

/// The powers of ten the scaler's proofs lean on, by unfolding `pow`.
proof fn lemma_pow10_values()
    ensures
        pow(10, 9) == 1_000_000_000,
        pow(10, 19) == 10_000_000_000_000_000_000,
        pow(10, 20) == 100_000_000_000_000_000_000,
        pow(10, 38) == 100_000_000_000_000_000_000_000_000_000_000_000_000,
{
    reveal_with_fuel(vstd::arithmetic::power::pow, 40);
}

/// `10^k` for the exponent range the scaler meets.
fn pow10_u128(k: u32) -> (r: u128)
    requires
        k <= 38,
    ensures
        r == pow(10, k as nat),
        r >= 1,
{
    let mut acc: u128 = 1;
    let mut i: u32 = 0;
    proof {
        lemma_pow0(10);
        lemma_pow_positive(10, k as nat);
    }
    while i < k
        invariant
            i <= k,
            k <= 38,
            acc == pow(10, i as nat),
        decreases k - i,
    {
        proof {
            lemma_pow10_values();
            lemma_pow_increases(10, (i + 1) as nat, 38);
            lemma_pow_adds(10, i as nat, 1);
            lemma_pow1(10);
        }
        acc = acc * 10;
        i = i + 1;
    }
    acc
}

/// Dividing a 64-bit amount by `10^k` gives zero once `k` reaches 20.
proof fn lemma_pow10_swamps_u64(amount: u64, k: nat)
    requires
        k >= 20,
    ensures
        (amount as int) / pow(10, k) == 0,
{
    lemma_pow10_values();
    lemma_pow_increases(10, 20, k);
    assert(amount < pow(10, k));
    vstd::arithmetic::div_mod::lemma_basic_div(amount as int, pow(10, k) as int);
}

/// Rescales an amount from a token's native `decimals` precision up to
/// the internal WAD base, truncating toward zero.
pub fn scale_token_before(amount: u64, decimals: u32) -> (r: Result<u64, ErrorCode>)
    ensures
        r == scale_token_before_spec(amount, decimals),
{
    if decimals <= BASE_DECIMALS {
        let factor = pow10_u128(BASE_DECIMALS - decimals);
        proof {
            lemma_pow10_values();
            lemma_pow_increases(10, (BASE_DECIMALS - decimals) as nat, 9);
            assert((amount as int) * factor <= (amount as int) * 1_000_000_000int)
                by (nonlinear_arith)
                requires
                    factor <= 1_000_000_000int,
                    amount >= 0,
            ;
            assert((amount as int) * 1_000_000_000int <= 0xffffffffffffffffint * 1_000_000_000int)
                by (nonlinear_arith)
                requires
                    0 <= amount <= 0xffffffffffffffffint,
            ;
        }
        let scaled = (amount as u128) * factor;
        if scaled > u64::MAX as u128 {
            Err(ErrorCode::MathError)
        } else {
            Ok(scaled as u64)
        }
    } else {
        let k = decimals - BASE_DECIMALS;
        if k >= 20 {
            proof {
                lemma_pow10_swamps_u64(amount, k as nat);
            }
            Ok(0)
        } else {
            let factor = pow10_u128(k);
            Ok(((amount as u128) / factor) as u64)
        }
    }
}

/// Rescales an amount from the internal WAD base back to a token's
/// native `decimals` precision, truncating toward zero.
pub fn scale_token_after(amount: u64, decimals: u32) -> (r: Result<u64, ErrorCode>)
    ensures
        r == scale_token_after_spec(amount, decimals),
{
    if decimals <= BASE_DECIMALS {
        let factor = pow10_u128(BASE_DECIMALS - decimals);
        Ok(((amount as u128) / factor) as u64)
    } else {
        let k = decimals - BASE_DECIMALS;
        if k >= 20 {
            if amount == 0 {
                proof {
                    assert((amount as int) * pow(10, k as nat) == 0) by (nonlinear_arith)
                        requires
                            amount == 0,
                    ;
                }
                Ok(0)
            } else {
                proof {
                    lemma_pow10_values();
                    lemma_pow_increases(10, 20, k as nat);
                    assert((amount as int) * pow(10, k as nat) >= 1 * pow(10, k as nat))
                        by (nonlinear_arith)
                        requires
                            amount >= 1,
                            pow(10, k as nat) >= 0,
                    ;
                }
                Err(ErrorCode::MathError)
            }
        } else {
            let factor = pow10_u128(k);
            proof {
                lemma_pow10_values();
                lemma_pow_increases(10, k as nat, 19);
                assert((amount as int) * factor <= 0xffffffffffffffffint
                    * 10000000000000000000int) by (nonlinear_arith)
                    requires
                        factor <= 10000000000000000000int,
                        0 <= amount <= 0xffffffffffffffffint,
                ;
            }
            let scaled = (amount as u128) * factor;
            if scaled > u64::MAX as u128 {
                Err(ErrorCode::MathError)
            } else {
                Ok(scaled as u64)
            }
        }
    }
}

} // verus!
