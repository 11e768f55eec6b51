//! Vesting/redemption calculator: linear vesting of purchased shares
//! between the cliff and the vesting end, and the redeem transition.

use vstd::prelude::*;
use vstd::arithmetic::div_mod::lemma_div_is_ordered;
use vstd::arithmetic::div_mod::lemma_div_multiples_vanish;
use vstd::arithmetic::mul::lemma_mul_inequality;
use crate::errors::ErrorCode;
use crate::math::lemma_u64_mul_fits_u128;
use crate::state::{Pool, PoolSettings, UserStats};

verus! {

/// Shares claimable by a user at `now`, never negative:
/// with vesting disabled or complete, everything purchased and not yet
/// claimed; before the cliff, nothing; in between, the linearly vested
/// part `floor(purchased * (now - cliff) / (end - cliff))` minus what
/// was already claimed, floored at zero.
pub open spec fn claimable_spec(user: UserStats, settings: PoolSettings, now: u64) -> int {
    if !settings.vesting_enabled() || now >= settings.vest_end {
        if user.claimed > user.purchased {
            0
        } else {
            user.purchased - user.claimed
        }
    } else if now < settings.vest_cliff {
        0
    } else {
        let vested = user.purchased * (now - settings.vest_cliff) / (settings.vest_end
            - settings.vest_cliff);
        if vested < user.claimed {
            0
        } else {
            vested - user.claimed
        }
    }
}

/// The vested amount never exceeds what was purchased, so a claim never
/// drives `claimed` past `purchased`.
pub proof fn lemma_claimable_within_purchased(user: UserStats, settings: PoolSettings, now: u64)
    ensures
        claimable_spec(user, settings, now) >= 0,
        user.claimed <= user.purchased ==> user.claimed + claimable_spec(user, settings, now)
            <= user.purchased,
{
    if !settings.vesting_enabled() || now >= settings.vest_end {
    } else if now < settings.vest_cliff {
    } else {
        let p = user.purchased as int;
        let num = now - settings.vest_cliff;
        let den = settings.vest_end - settings.vest_cliff;
        lemma_mul_inequality(num, den, p);
        assert(p * num == num * p) by (nonlinear_arith);
        assert(p * den == den * p) by (nonlinear_arith);
        lemma_div_is_ordered(p * num, p * den, den);
        lemma_div_multiples_vanish(p, den);
    }
}

/// Computes the claimable amount, exactly as `claimable_spec` defines it.
pub fn claimable(user: &UserStats, settings: &PoolSettings, now: u64) -> (r: u64)
    ensures
        r == claimable_spec(*user, *settings, now),
{
    if settings.sale_end >= settings.vest_end || now >= settings.vest_end {
        if user.claimed > user.purchased {
            0
        } else {
            user.purchased - user.claimed
        }
    } else if now < settings.vest_cliff {
        0
    } else {
        proof {
            lemma_u64_mul_fits_u128(user.purchased, (now - settings.vest_cliff) as u64);
            lemma_claimable_within_purchased(*user, *settings, now);
            let p = user.purchased as int;
            let num = now - settings.vest_cliff;
            let den = settings.vest_end - settings.vest_cliff;
            lemma_mul_inequality(num, den, p);
            assert(p * num == num * p) by (nonlinear_arith);
            assert(p * den == den * p) by (nonlinear_arith);
            lemma_div_is_ordered(p * num, p * den, den);
            lemma_div_multiples_vanish(p, den);
        }
        let vested = ((user.purchased as u128) * ((now - settings.vest_cliff) as u128) / (
        (settings.vest_end - settings.vest_cliff) as u128)) as u64;
        if vested < user.claimed {
            0
        } else {
            vested - user.claimed
        }
    }
}

/// Redeeming from an open pool is disallowed; a zero claimable amount
/// is its own error; otherwise the claim is recorded and the share
/// transfer for it is authorized.
pub open spec fn redeem_spec(pool: Pool, user: UserStats, now: u64) -> Result<
    (UserStats, u64),
    ErrorCode,
> {
    if !pool.closed {
        Err(ErrorCode::RedeemingDisallowed)
    } else {
        let amount = claimable_spec(user, pool.settings, now);
        if amount == 0 {
            Err(ErrorCode::NoSharesToClaim)
        } else if user.claimed + amount > u64::MAX {
            Err(ErrorCode::MathError)
        } else {
            Ok(((UserStats { claimed: (user.claimed + amount) as u64, ..user }), amount as u64))
        }
    }
}

/// Redeems every share vested by `now`; on success the result is the
/// share amount the runtime transfers from the pool's vault to the
/// user.
pub fn redeem(pool: &Pool, user: &mut UserStats, now: u64) -> (r: Result<u64, ErrorCode>)
    ensures
        match r {
            Ok(amount) => redeem_spec(*pool, *old(user), now) == Ok::<_, ErrorCode>((
                *final(user),
                amount,
            )),
            Err(e) => redeem_spec(*pool, *old(user), now) == Err::<(UserStats, u64), _>(e)
                && *final(user) == *old(user),
        },
{
    if !pool.closed {
        return Err(ErrorCode::RedeemingDisallowed);
    }
    let amount = claimable(user, &pool.settings, now);
    if amount == 0 {
        return Err(ErrorCode::NoSharesToClaim);
    }
    if (user.claimed as u128) + (amount as u128) > u64::MAX as u128 {
        return Err(ErrorCode::MathError);
    }
    user.claimed = user.claimed + amount;
    Ok(amount)
}

} // verus!
