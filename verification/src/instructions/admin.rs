//! What only the pool's admin may do: pause the pool, resume it, and set its
//! fee. None of it touches an account or a registry.

use vstd::prelude::*;
use crate::error::ErrorCode;
use crate::fee::MAX_FEE_BPS;
use crate::state::pool::PrivacyPool;
use crate::state::pubkey::Pubkey;

verus! {

/// What pausing works on.
#[derive(Clone, Copy, Debug, PartialEq, Eq)]
pub struct AdminPause {
    /// The pool.
    pub pool: PrivacyPool,
    /// Who asks.
    pub admin: Pubkey,
}

/// What resuming works on.
#[derive(Clone, Copy, Debug, PartialEq, Eq)]
pub struct AdminUnpause {
    /// The pool.
    pub pool: PrivacyPool,
    /// Who asks.
    pub admin: Pubkey,
}

/// What setting the fee works on.
#[derive(Clone, Copy, Debug, PartialEq, Eq)]
pub struct AdminSetFees {
    /// The pool.
    pub pool: PrivacyPool,
    /// Who asks.
    pub admin: Pubkey,
}

/// Pauses the pool. Anyone but the pool's admin is refused with
/// `Unauthorized`, and then nothing changes.
pub fn admin_pause(ctx: &mut AdminPause) -> (r: Result<(), ErrorCode>)
    ensures
        final(ctx).admin == old(ctx).admin,
        old(ctx).pool.admin@ == old(ctx).admin@ ==> r is Ok && final(ctx).pool == (PrivacyPool {
            paused: true,
            ..old(ctx).pool
        }),
        old(ctx).pool.admin@ != old(ctx).admin@ ==> r == Err::<(), ErrorCode>(
            ErrorCode::Unauthorized,
        ) && *final(ctx) == *old(ctx),
{
    match ctx.pool.check_admin(&ctx.admin) {
        Err(e) => {
            return Err(e);
        },
        Ok(_) => {},
    }
    ctx.pool.paused = true;
    Ok(())
}

/// Resumes the pool. Anyone but the pool's admin is refused with
/// `Unauthorized`, and then nothing changes.
pub fn admin_unpause(ctx: &mut AdminUnpause) -> (r: Result<(), ErrorCode>)
    ensures
        final(ctx).admin == old(ctx).admin,
        old(ctx).pool.admin@ == old(ctx).admin@ ==> r is Ok && final(ctx).pool == (PrivacyPool {
            paused: false,
            ..old(ctx).pool
        }),
        old(ctx).pool.admin@ != old(ctx).admin@ ==> r == Err::<(), ErrorCode>(
            ErrorCode::Unauthorized,
        ) && *final(ctx) == *old(ctx),
{
    match ctx.pool.check_admin(&ctx.admin) {
        Err(e) => {
            return Err(e);
        },
        Ok(_) => {},
    }
    ctx.pool.paused = false;
    Ok(())
}

/// Why setting the fee to `fee_bps` is refused, if it is: the asker is not
/// the pool's admin, or the fee is more than 10000 basis points.
pub open spec fn set_fees_refusal(ctx: AdminSetFees, fee_bps: u16) -> Option<ErrorCode> {
    if ctx.pool.admin@ != ctx.admin@ {
        Some(ErrorCode::Unauthorized)
    } else if fee_bps > MAX_FEE_BPS {
        Some(ErrorCode::FeeTooHigh)
    } else {
        None
    }
}

/// Sets the pool's fee to `fee_bps` basis points. A refusal changes nothing.
pub fn admin_set_fees(ctx: &mut AdminSetFees, fee_bps: u16) -> (r: Result<(), ErrorCode>)
    ensures
        final(ctx).admin == old(ctx).admin,
        match set_fees_refusal(*old(ctx), fee_bps) {
            Some(e) => r == Err::<(), ErrorCode>(e) && *final(ctx) == *old(ctx),
            None => r is Ok && final(ctx).pool == (PrivacyPool { fee_bps, ..old(ctx).pool }),
        },
        old(ctx).pool.wf() ==> final(ctx).pool.wf(),
{
    match ctx.pool.check_admin(&ctx.admin) {
        Err(e) => {
            return Err(e);
        },
        Ok(_) => {},
    }
    ctx.pool.set_fee(fee_bps)
}

} // verus!
