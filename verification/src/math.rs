//! Deterministic fixed-point arithmetic: floor square root and the
//! WAD-scaled power routine the pricing curve is built on.
//!
//! The power routine computes `base^(exp/WAD)` for WAD-scaled operands by
//! repeated multiplication for the integer part of the exponent and by
//! square-root halving of the fractional part, truncating after every
//! step. The recursive spec functions in this module are the definition
//! of that computation: every party evaluating them on the same inputs
//! obtains bit-identical results.

use vstd::prelude::*;
use crate::errors::ErrorCode;
use crate::WAD;

verus! {

/// Cap on the running accumulator of the power routine; a computation
/// that climbs past it stops with a math error well before u128 overflow.
pub const POW_ACC_CAP: u128 = 10_000_000_000_000_000_000_000_000_000;

/// Bound (exclusive) on the WAD-scaled exponent the power routine accepts:
/// 128 whole units.
pub const MAX_POW_EXP_WAD: u128 = 128_000_000_000;

/// Iterations spent on the fractional part of an exponent; 2^30 exceeds
/// WAD, so thirty halvings resolve every fractional bit.
pub const POW_FRAC_ITERS: u64 = 30;

/// The product of two 64-bit values always fits 128 bits.
pub proof fn lemma_u64_mul_fits_u128(a: u64, b: u64)
    ensures
        (a as int) * (b as int) <= u128::MAX,
{
    assert((a as int) * (b as int) <= 0xffffffffffffffffint * 0xffffffffffffffffint)
        by (nonlinear_arith)
        requires
            0 <= a <= 0xffffffffffffffffint,
            0 <= b <= 0xffffffffffffffffint,
    ;
}

/// Floor of the square root of `n`.
pub open spec fn sqrt_nat(n: nat) -> nat
    decreases n,
{
    if n == 0 {
        0
    } else {
        let r = sqrt_nat((n - 1) as nat);
        if (r + 1) * (r + 1) <= n {
            (r + 1) as nat
        } else {
            r
        }
    }
}

/// `sqrt_nat(n)` squares to at most `n`, and is the largest such number.
pub proof fn lemma_sqrt_nat_bounds(n: nat)
    ensures
        sqrt_nat(n) * sqrt_nat(n) <= n,
        n < (sqrt_nat(n) + 1) * (sqrt_nat(n) + 1),
    decreases n,
{
    if n == 0 {
        let s = sqrt_nat(n);
        assert(s == 0);
        assert((s + 1) * (s + 1) == 1) by (nonlinear_arith)
            requires
                s == 0,
        ;
    } else {
        lemma_sqrt_nat_bounds((n - 1) as nat);
        let r = sqrt_nat((n - 1) as nat);
        if (r + 1) * (r + 1) <= n {
            assert(sqrt_nat(n) == r + 1);
            assert(n <= (n - 1) + 1 < (r + 1) * (r + 1) + 1);
            assert((r + 1) * (r + 1) + 1 <= (r + 2) * (r + 2)) by (nonlinear_arith);
            assert(n < (r + 2) * (r + 2));
        } else {
            assert(sqrt_nat(n) == r);
            assert(r * r <= n - 1 <= n);
            assert(n < (r + 1) * (r + 1));
        }
    }
}

/// Any number whose square brackets `n` is the floor square root of `n`.
pub proof fn lemma_sqrt_nat_unique(n: nat, r: nat)
    requires
        r * r <= n,
        n < (r + 1) * (r + 1),
    ensures
        r == sqrt_nat(n),
{
    lemma_sqrt_nat_bounds(n);
    let s = sqrt_nat(n);
    if r < s {
        assert((r + 1) * (r + 1) <= s * s) by (nonlinear_arith)
            requires
                r + 1 <= s,
        ;
    }
    if s < r {
        assert((s + 1) * (s + 1) <= r * r) by (nonlinear_arith)
            requires
                s + 1 <= r,
        ;
    }
}

/// Floor square root by bisection over the 64-bit root range.
pub fn sqrt_u128(v: u128) -> (r: u128)
    ensures
        r == sqrt_nat(v as nat),
        r * r <= v,
        (v as int) < (r + 1) * (r + 1),
{
    let mut lo: u128 = 0;
    let mut hi: u128 = 0x1_0000_0000_0000_0000;
    proof {
        assert((v as int) < 0x1_0000_0000_0000_0000int * 0x1_0000_0000_0000_0000int);
    }
    while lo + 1 < hi
        invariant
            lo < hi,
            hi <= 0x1_0000_0000_0000_0000,
            (lo as int) * (lo as int) <= v as int,
            (v as int) < (hi as int) * (hi as int),
        decreases hi - lo,
    {
        let mid = lo + (hi - lo) / 2;
        proof {
            assert(lo < mid < hi);
            assert(mid * mid <= u128::MAX) by (nonlinear_arith)
                requires
                    mid < 0x1_0000_0000_0000_0000u128,
            ;
        }
        if mid * mid <= v {
            lo = mid;
        } else {
            hi = mid;
        }
    }
    proof {
        assert(hi == lo + 1);
        lemma_sqrt_nat_unique(v as nat, lo as nat);
    }
    lo
}

/// Integer part of the power computation: `k` successive WAD-scaled
/// multiplications of the accumulator by `base`, truncating after each,
/// stopping with `None` once the accumulator passes the cap.
pub open spec fn pow_int_loop(acc: nat, base: nat, k: nat) -> Option<nat>
    decreases k,
{
    if k == 0 {
        Some(acc)
    } else if acc > POW_ACC_CAP {
        None
    } else {
        pow_int_loop(acc * base / (WAD as nat), base, (k - 1) as nat)
    }
}

/// Fractional part of the power computation: over `k` rounds the base is
/// replaced by its WAD-scaled square root while the remaining exponent is
/// doubled; whenever the doubled exponent reaches a whole unit, the
/// accumulator takes one multiplication by the current base.
pub open spec fn pow_frac_loop(acc: nat, base: nat, exp: nat, k: nat) -> Option<nat>
    decreases k,
{
    if k == 0 {
        Some(acc)
    } else {
        let b = sqrt_nat(base * (WAD as nat));
        let e = 2 * exp;
        if e >= WAD {
            if acc > POW_ACC_CAP {
                None
            } else {
                pow_frac_loop(acc * b / (WAD as nat), b, (e - WAD) as nat, (k - 1) as nat)
            }
        } else {
            pow_frac_loop(acc, b, e, (k - 1) as nat)
        }
    }
}

/// `base^(exp / WAD)` for WAD-scaled fixed-point operands, in WAD scale:
/// the whole units of the exponent by repeated multiplication, the
/// remainder by square-root halving. `None` marks a computation that
/// passed the accumulator cap.
pub open spec fn pow_wad_spec(base: nat, exp: nat) -> Option<nat> {
    match pow_int_loop(WAD as nat, base, exp / (WAD as nat)) {
        Some(acc) => pow_frac_loop(acc, base, exp % (WAD as nat), POW_FRAC_ITERS as nat),
        None => None,
    }
}

/// `base^(exp / WAD)` in WAD scale, exactly as `pow_wad_spec` defines it.
pub fn pow_wad(base: u128, exp: u128) -> (r: Result<u128, ErrorCode>)
    requires
        base <= 2 * (WAD as u128),
        exp < MAX_POW_EXP_WAD,
    ensures
        match r {
            Ok(v) => pow_wad_spec(base as nat, exp as nat) == Some(v as nat),
            Err(e) => e == ErrorCode::MathError && pow_wad_spec(base as nat, exp as nat)
                is None,
        },
{
    let wad: u128 = WAD as u128;
    let e_int: u128 = exp / wad;
    let e_frac: u128 = exp % wad;
    let mut acc: u128 = wad;
    let mut i: u128 = 0;
    while i < e_int
        invariant
            base <= 2 * wad,
            wad == WAD,
            e_int == exp / (WAD as u128),
            i <= e_int,
            acc <= 2 * POW_ACC_CAP,
            pow_int_loop(wad as nat, base as nat, e_int as nat) == pow_int_loop(
                acc as nat,
                base as nat,
                (e_int - i) as nat,
            ),
        decreases e_int - i,
    {
        if acc > POW_ACC_CAP {
            proof {
                assert(pow_int_loop(acc as nat, base as nat, (e_int - i) as nat) is None);
            }
            return Err(ErrorCode::MathError);
        }
        proof {
            assert(acc * base <= POW_ACC_CAP * (2 * WAD)) by (nonlinear_arith)
                requires
                    acc <= POW_ACC_CAP,
                    base <= 2 * (WAD as u128),
            ;
            assert(acc * base / (wad as int) <= 2 * POW_ACC_CAP) by (nonlinear_arith)
                requires
                    acc * base <= POW_ACC_CAP * (2 * WAD),
                    wad == WAD,
            ;
        }
        acc = acc * base / wad;
        i = i + 1;
    }
    proof {
        assert(pow_int_loop(wad as nat, base as nat, e_int as nat) == Some(acc as nat));
    }
    let mut b: u128 = base;
    let mut e: u128 = e_frac;
    let mut j: u128 = 0;
    while j < POW_FRAC_ITERS as u128
        invariant
            wad == WAD,
            j <= POW_FRAC_ITERS,
            b <= 2 * wad,
            e < wad,
            acc <= 2 * POW_ACC_CAP,
            pow_wad_spec(base as nat, exp as nat) == pow_frac_loop(
                acc as nat,
                b as nat,
                e as nat,
                (POW_FRAC_ITERS - j) as nat,
            ),
        decreases POW_FRAC_ITERS - j,
    {
        let ghost acc0: nat = acc as nat;
        let ghost b0: nat = b as nat;
        let ghost e0: nat = e as nat;
        let b2 = sqrt_u128(b * wad);
        proof {
            assert(b2 < 2 * wad) by (nonlinear_arith)
                requires
                    b2 * b2 <= b * (wad as int),
                    b <= 2 * (wad as int),
                    wad == WAD,
                    b2 >= 0,
            ;
        }
        b = b2;
        e = e * 2;
        if e >= wad {
            e = e - wad;
            if acc > POW_ACC_CAP {
                proof {
                    assert(pow_frac_loop(acc0, b0, e0, (POW_FRAC_ITERS - j) as nat) is None);
                }
                return Err(ErrorCode::MathError);
            }
            proof {
                assert(acc * b <= POW_ACC_CAP * (2 * WAD)) by (nonlinear_arith)
                    requires
                        acc <= POW_ACC_CAP,
                        b <= 2 * (WAD as u128),
                ;
                assert(acc * b / (wad as int) <= 2 * POW_ACC_CAP) by (nonlinear_arith)
                    requires
                        acc * b <= POW_ACC_CAP * (2 * WAD),
                        wad == WAD,
                ;
            }
            acc = acc * b / wad;
        }
        j = j + 1;
        proof {
            assert(pow_frac_loop(acc0, b0, e0, (POW_FRAC_ITERS + 1 - j) as nat) == pow_frac_loop(
                acc as nat,
                b as nat,
                e as nat,
                (POW_FRAC_ITERS - j) as nat,
            ));
        }
    }
    proof {
        assert(pow_frac_loop(acc as nat, b as nat, e as nat, 0) == Some(acc as nat));
    }
    Ok(acc)
}

} // verus!
