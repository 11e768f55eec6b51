//! Weighted invariant pricing engine: the two power-curve primitives of
//! the constant-value invariant `reserve_in^w_in * reserve_out^w_out`.
//!
//! Amounts, reserves and weights are all WAD-scaled. A single swap is
//! capped at 30% of the relevant reserve, bounding price impact and
//! keeping the fixed-point power numerically tame.

use vstd::prelude::*;
use vstd::arithmetic::div_mod::lemma_div_is_ordered;
use vstd::arithmetic::div_mod::lemma_div_multiples_vanish;
use crate::errors::ErrorCode;
use crate::math::{pow_wad, pow_wad_spec, MAX_POW_EXP_WAD};
use crate::WAD;

verus! {

/// Amount of `token_out` released for `amount_in` of `token_in`:
/// `reserve_out * (1 - (reserve_in / (reserve_in + amount_in))^(w_in/w_out))`,
/// evaluated by the deterministic fixed-point power routine.
///
/// Failures, in the order tested: more than 30% of the inbound reserve,
/// a zero outbound weight, a weight ratio too large for the power
/// routine, an empty inbound side, a power computation past its cap, or
/// a power result above one whole unit.
pub open spec fn get_amount_out_spec(
    amount_in: u64,
    reserve_in: u64,
    reserve_out: u64,
    weight_in: u64,
    weight_out: u64,
) -> Result<u64, ErrorCode> {
    if 10 * amount_in > 3 * reserve_in {
        Err(ErrorCode::AmountInTooLarge)
    } else if weight_out == 0 {
        Err(ErrorCode::MathError)
    } else if weight_in * WAD / (weight_out as int) >= MAX_POW_EXP_WAD {
        Err(ErrorCode::UnsafePower)
    } else if reserve_in + amount_in == 0 {
        Err(ErrorCode::MathError)
    } else {
        let base = reserve_in * WAD / (reserve_in + amount_in);
        let exp = weight_in * WAD / (weight_out as int);
        match pow_wad_spec(base as nat, exp as nat) {
            Some(p) => if p > WAD {
                Err(ErrorCode::MathError)
            } else {
                Ok((reserve_out * (WAD - p) / (WAD as int)) as u64)
            },
            None => Err(ErrorCode::MathError),
        }
    }
}

/// Amount of `token_in` demanded for `amount_out` of `token_out`:
/// `reserve_in * ((reserve_out / (reserve_out - amount_out))^(w_out/w_in) - 1)`,
/// evaluated by the deterministic fixed-point power routine.
///
/// Failures, in the order tested: more than 30% of the outbound reserve,
/// an empty outbound remainder, a zero inbound weight, a weight ratio
/// too large for the power routine, a power computation past its cap, a
/// power result below one whole unit, or a final amount beyond 64 bits.
pub open spec fn get_amount_in_spec(
    amount_out: u64,
    reserve_in: u64,
    reserve_out: u64,
    weight_in: u64,
    weight_out: u64,
) -> Result<u64, ErrorCode> {
    if 10 * amount_out > 3 * reserve_out {
        Err(ErrorCode::AmountOutTooLarge)
    } else if reserve_out - amount_out == 0 {
        Err(ErrorCode::MathError)
    } else if weight_in == 0 {
        Err(ErrorCode::MathError)
    } else if weight_out * WAD / (weight_in as int) >= MAX_POW_EXP_WAD {
        Err(ErrorCode::UnsafePower)
    } else {
        let base = reserve_out * WAD / (reserve_out - amount_out);
        let exp = weight_out * WAD / (weight_in as int);
        match pow_wad_spec(base as nat, exp as nat) {
            Some(p) => if p < WAD {
                Err(ErrorCode::MathError)
            } else if reserve_in * (p - WAD) / (WAD as int) > u64::MAX {
                Err(ErrorCode::MathError)
            } else {
                Ok((reserve_in * (p - WAD) / (WAD as int)) as u64)
            },
            None => Err(ErrorCode::MathError),
        }
    }
}

/// Computes the outbound amount for a given inbound amount, exactly as
/// `get_amount_out_spec` defines it.
pub fn get_amount_out(
    amount_in: u64,
    reserve_in: u64,
    reserve_out: u64,
    weight_in: u64,
    weight_out: u64,
) -> (r: Result<u64, ErrorCode>)
    ensures
        r == get_amount_out_spec(amount_in, reserve_in, reserve_out, weight_in, weight_out),
{
    if 10u128 * (amount_in as u128) > 3u128 * (reserve_in as u128) {
        return Err(ErrorCode::AmountInTooLarge);
    }
    if weight_out == 0 {
        return Err(ErrorCode::MathError);
    }
    let exp = (weight_in as u128) * (WAD as u128) / (weight_out as u128);
    if exp >= MAX_POW_EXP_WAD {
        return Err(ErrorCode::UnsafePower);
    }
    let den = (reserve_in as u128) + (amount_in as u128);
    if den == 0 {
        return Err(ErrorCode::MathError);
    }
    let base = (reserve_in as u128) * (WAD as u128) / den;
    proof {
        crate::math::lemma_u64_mul_fits_u128(reserve_in, WAD);
        assert((reserve_in as int) * (WAD as int) <= den * (WAD as int)) by (nonlinear_arith)
            requires
                reserve_in <= den,
                WAD > 0,
        ;
        lemma_div_is_ordered((reserve_in as int) * (WAD as int), den * (WAD as int), den as int);
        lemma_div_multiples_vanish(WAD as int, den as int);
    }
    let p = match pow_wad(base, exp) {
        Ok(p) => p,
        Err(e) => {
            return Err(e);
        },
    };
    if p > WAD as u128 {
        return Err(ErrorCode::MathError);
    }
    proof {
        crate::math::lemma_u64_mul_fits_u128(reserve_out, WAD);
        assert((reserve_out as int) * ((WAD as int) - p) <= (reserve_out as int) * (WAD as int))
            by (nonlinear_arith)
            requires
                0 <= (WAD as int) - p <= (WAD as int),
                reserve_out >= 0,
        ;
        lemma_div_is_ordered(
            (reserve_out as int) * ((WAD as int) - p),
            (reserve_out as int) * (WAD as int),
            WAD as int,
        );
        lemma_div_multiples_vanish(reserve_out as int, WAD as int);
    }
    let amount = (reserve_out as u128) * ((WAD as u128) - p) / (WAD as u128);
    Ok(amount as u64)
}

/// Computes the inbound amount for a given outbound amount, exactly as
/// `get_amount_in_spec` defines it.
pub fn get_amount_in(
    amount_out: u64,
    reserve_in: u64,
    reserve_out: u64,
    weight_in: u64,
    weight_out: u64,
) -> (r: Result<u64, ErrorCode>)
    ensures
        r == get_amount_in_spec(amount_out, reserve_in, reserve_out, weight_in, weight_out),
{
    if 10u128 * (amount_out as u128) > 3u128 * (reserve_out as u128) {
        return Err(ErrorCode::AmountOutTooLarge);
    }
    let rem = reserve_out - amount_out;
    if rem == 0 {
        return Err(ErrorCode::MathError);
    }
    proof {
        // The 30% guard leaves at least 70% of the outbound reserve, so
        // the ratio fed to the power routine stays at or below two
        // whole units.
        crate::math::lemma_u64_mul_fits_u128(reserve_out, WAD);
        assert(reserve_out as int <= 2 * (rem as int));
        lemma_div_is_ordered(
            (reserve_out as int) * (WAD as int),
            (rem as int) * (2 * (WAD as int)),
            rem as int,
        );
        lemma_div_multiples_vanish(2 * (WAD as int), rem as int);
    }
    let base = (reserve_out as u128) * (WAD as u128) / (rem as u128);
    if weight_in == 0 {
        return Err(ErrorCode::MathError);
    }
    let exp = (weight_out as u128) * (WAD as u128) / (weight_in as u128);
    if exp >= MAX_POW_EXP_WAD {
        return Err(ErrorCode::UnsafePower);
    }
    let p = match pow_wad(base, exp) {
        Ok(p) => p,
        Err(e) => {
            return Err(e);
        },
    };
    if p < WAD as u128 {
        return Err(ErrorCode::MathError);
    }
    let q = p - (WAD as u128);
    if reserve_in != 0 && q > u128::MAX / (reserve_in as u128) {
        proof {
            let r_in = reserve_in as int;
            let cap = u128::MAX as int;
            vstd::arithmetic::div_mod::lemma_fundamental_div_mod(cap, r_in);
            vstd::arithmetic::div_mod::lemma_mod_division_less_than_divisor(cap, r_in);
            assert(r_in * q > cap) by (nonlinear_arith)
                requires
                    q > cap / r_in,
                    r_in > 0,
                    cap == r_in * (cap / r_in) + cap % r_in,
                    0 <= cap % r_in < r_in,
            ;
            assert((cap + 1) / (WAD as int) > u64::MAX as int);
            lemma_div_is_ordered(cap + 1, r_in * q, WAD as int);
        }
        return Err(ErrorCode::MathError);
    }
    proof {
        if reserve_in == 0 {
            assert((reserve_in as int) * q == 0) by (nonlinear_arith)
                requires
                    reserve_in == 0,
            ;
        } else {
            vstd::arithmetic::div_mod::lemma_fundamental_div_mod(u128::MAX as int, reserve_in as int);
            vstd::arithmetic::div_mod::lemma_mod_division_less_than_divisor(u128::MAX as int, reserve_in as int);
            assert((reserve_in as int) * q <= u128::MAX) by (nonlinear_arith)
                requires
                    q <= (u128::MAX as int) / (reserve_in as int),
                    reserve_in > 0,
                    u128::MAX as int == (reserve_in as int) * ((u128::MAX as int) / (reserve_in as int)) + (u128::MAX as int) % (reserve_in as int),
                    0 <= (u128::MAX as int) % (reserve_in as int),
            ;
        }
    }
    let prod = (reserve_in as u128) * q;
    let amount = prod / (WAD as u128);
    if amount > u64::MAX as u128 {
        return Err(ErrorCode::MathError);
    }
    Ok(amount as u64)
}

} // verus!
