//! Fee arithmetic in basis points.

use vstd::prelude::*;
use crate::error::ErrorCode;

verus! {

/// One hundred percent, in basis points.
pub const BPS_DENOMINATOR: u64 = 10_000;

/// The largest fee a pool may charge, in basis points.
pub const MAX_FEE_BPS: u16 = 10_000;

/// The fee on `amount` at `fee_bps` basis points, rounded down.
pub open spec fn fee_of(amount: u64, fee_bps: u16) -> int {
    (amount * fee_bps) / 10_000
}

/// What is left of `amount` after the fee at `fee_bps` basis points.
pub open spec fn net_of(amount: u64, fee_bps: u16) -> int {
    amount - fee_of(amount, fee_bps)
}

/// A fee of at most 10000 basis points is never more than the amount, and
/// never negative.
pub proof fn lemma_fee_within_amount(amount: u64, fee_bps: u16)
    ensures
        0 <= fee_of(amount, fee_bps),
        fee_bps <= MAX_FEE_BPS ==> fee_of(amount, fee_bps) <= amount,
        fee_bps <= MAX_FEE_BPS ==> 0 <= net_of(amount, fee_bps) <= amount,
        fee_of(amount, fee_bps) + net_of(amount, fee_bps) == amount,
{
    assert(0 <= amount * fee_bps) by (nonlinear_arith);
    if fee_bps <= MAX_FEE_BPS {
        assert(amount * fee_bps <= amount * 10_000) by (nonlinear_arith)
            requires
                fee_bps <= 10_000,
        ;
    }
}

/// How `amount` splits at `fee_bps` basis points: into what is left and the
/// fee, or not at all, where the product leaves the range of `u64` or the
/// fee exceeds the amount.
pub open spec fn split_of(amount: u64, fee_bps: u16) -> Result<(u64, u64), ErrorCode> {
    if amount * fee_bps > u64::MAX {
        Err(ErrorCode::ArithmeticOverflow)
    } else if fee_of(amount, fee_bps) > amount {
        Err(ErrorCode::AmountTooSmall)
    } else {
        Ok((net_of(amount, fee_bps) as u64, fee_of(amount, fee_bps) as u64))
    }
}

/// Splits `amount` into what is left after the fee and the fee itself: the
/// fee is `amount * fee_bps / 10000`, rounded down. Refuses with
/// `ArithmeticOverflow` where the product leaves the range of `u64`, and with
/// `AmountTooSmall` where the fee exceeds the amount, which no rate of at
/// most 10000 basis points brings about.
pub fn split_fee(amount: u64, fee_bps: u16) -> (r: Result<(u64, u64), ErrorCode>)
    ensures
        r == split_of(amount, fee_bps),
        r matches Ok((net, fee)) ==> net + fee == amount && fee == fee_of(amount, fee_bps),
        fee_bps <= MAX_FEE_BPS && amount * fee_bps <= u64::MAX ==> r is Ok,
{
    proof {
        lemma_fee_within_amount(amount, fee_bps);
    }
    let product = match amount.checked_mul(fee_bps as u64) {
        Some(p) => p,
        None => {
            return Err(ErrorCode::ArithmeticOverflow);
        },
    };
    let fee: u64 = product / BPS_DENOMINATOR;
    match amount.checked_sub(fee) {
        Some(net) => Ok((net, fee)),
        None => Err(ErrorCode::AmountTooSmall),
    }
}

} // verus!
