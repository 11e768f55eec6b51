//! Factory administration: creating the fee configuration and changing
//! fees, fee recipient and authority. Every fee respects the 1,000-bips
//! ceiling; who may call these is the runtime's concern.

use vstd::prelude::*;
use crate::errors::ErrorCode;
use crate::state::LBPManagerInfo;
use crate::MAX_FEE_WAD;

verus! {

/// Creates the factory record; each of the three fees must respect the
/// ceiling, or nothing is created.
pub fn initialize(
    id: u64,
    authority: u64,
    fee_recipient: u64,
    platform_fee: u64,
    referrer_fee: u64,
    swap_fee: u64,
) -> (r: Result<LBPManagerInfo, ErrorCode>)
    ensures
        platform_fee <= MAX_FEE_WAD && referrer_fee <= MAX_FEE_WAD && swap_fee <= MAX_FEE_WAD
            ==> r == Ok::<_, ErrorCode>(
            (LBPManagerInfo { id, authority, fee_recipient, platform_fee, referrer_fee, swap_fee }),
        ),
        platform_fee > MAX_FEE_WAD || referrer_fee > MAX_FEE_WAD || swap_fee > MAX_FEE_WAD ==> r
            == Err::<LBPManagerInfo, _>(ErrorCode::MaxFeeExceeded),
        r matches Ok(m) ==> m.wf(),
{
    if platform_fee > MAX_FEE_WAD || referrer_fee > MAX_FEE_WAD || swap_fee > MAX_FEE_WAD {
        return Err(ErrorCode::MaxFeeExceeded);
    }
    Ok(LBPManagerInfo { id, authority, fee_recipient, platform_fee, referrer_fee, swap_fee })
}

/// Sets the swap fee, refusing anything above the ceiling.
pub fn set_swap_fee(manager: &mut LBPManagerInfo, new_fee: u64) -> (r: Result<(), ErrorCode>)
    ensures
        match r {
            Ok(()) => new_fee <= MAX_FEE_WAD && *final(manager) == (LBPManagerInfo {
                swap_fee: new_fee,
                ..*old(manager)
            }),
            Err(e) => e == ErrorCode::MaxFeeExceeded && new_fee > MAX_FEE_WAD && *final(manager)
                == *old(manager),
        },
{
    if new_fee > MAX_FEE_WAD {
        return Err(ErrorCode::MaxFeeExceeded);
    }
    manager.swap_fee = new_fee;
    Ok(())
}

/// Sets the platform fee, refusing anything above the ceiling.
pub fn set_platform_fee(manager: &mut LBPManagerInfo, new_fee: u64) -> (r: Result<(), ErrorCode>)
    ensures
        match r {
            Ok(()) => new_fee <= MAX_FEE_WAD && *final(manager) == (LBPManagerInfo {
                platform_fee: new_fee,
                ..*old(manager)
            }),
            Err(e) => e == ErrorCode::MaxFeeExceeded && new_fee > MAX_FEE_WAD && *final(manager)
                == *old(manager),
        },
{
    if new_fee > MAX_FEE_WAD {
        return Err(ErrorCode::MaxFeeExceeded);
    }
    manager.platform_fee = new_fee;
    Ok(())
}

/// Sets the referrer fee, refusing anything above the ceiling.
pub fn set_referrer_fee(manager: &mut LBPManagerInfo, new_fee: u64) -> (r: Result<(), ErrorCode>)
    ensures
        match r {
            Ok(()) => new_fee <= MAX_FEE_WAD && *final(manager) == (LBPManagerInfo {
                referrer_fee: new_fee,
                ..*old(manager)
            }),
            Err(e) => e == ErrorCode::MaxFeeExceeded && new_fee > MAX_FEE_WAD && *final(manager)
                == *old(manager),
        },
{
    if new_fee > MAX_FEE_WAD {
        return Err(ErrorCode::MaxFeeExceeded);
    }
    manager.referrer_fee = new_fee;
    Ok(())
}

/// Points fee settlement at a new recipient.
pub fn set_fee_recipient(manager: &mut LBPManagerInfo, recipient: u64)
    ensures
        *final(manager) == (LBPManagerInfo { fee_recipient: recipient, ..*old(manager) }),
{
    manager.fee_recipient = recipient;
}

/// Hands the factory to a new authority.
pub fn transfer_ownership(manager: &mut LBPManagerInfo, new_owner: u64)
    ensures
        *final(manager) == (LBPManagerInfo { authority: new_owner, ..*old(manager) }),
{
    manager.authority = new_owner;
}

} // verus!
