//! The pool's own record: who administers it, what it charges, whether it is
//! paused, and how much it holds in shielded form.

use vstd::prelude::*;
use crate::error::ErrorCode;
use crate::fee::{fee_of, split_fee, split_of, MAX_FEE_BPS};
use crate::state::pubkey::Pubkey;

verus! {

/// One pool.
#[derive(Clone, Copy, Debug, PartialEq, Eq)]
pub struct PrivacyPool {
    /// Who may pause the pool and set its fee.
    pub admin: Pubkey,
    /// The bump of the vault's address.
    pub vault_bump: u8,
    /// The bump of the commitment registry's address.
    pub commitment_bump: u8,
    /// The bump of the nullifier registry's address.
    pub nullifier_bump: u8,
    /// Whether the pool is paused.
    pub paused: bool,
    /// The fee, in basis points.
    pub fee_bps: u16,
    /// The net value held in shielded form.
    pub total_locked: u64,
}

impl PrivacyPool {
    /// The bytes that a pool takes up where it is kept: a tag of eight bytes
    /// and the fields.
    pub const SIZE: usize = 8 + 32 + 1 + 1 + 1 + 1 + 2 + 8;

    /// The fee is no more than the whole amount.
    pub open spec fn wf(&self) -> bool {
        self.fee_bps <= MAX_FEE_BPS
    }

    /// Refuses with `ProtocolPaused` while the pool is paused.
    pub fn check_not_paused(&self) -> (r: Result<(), ErrorCode>)
        ensures
            r == if self.paused {
                Err::<(), ErrorCode>(ErrorCode::ProtocolPaused)
            } else {
                Ok::<(), ErrorCode>(())
            },
    {
        if self.paused {
            Err(ErrorCode::ProtocolPaused)
        } else {
            Ok(())
        }
    }

    /// Refuses with `Unauthorized` any caller but the admin.
    pub fn check_admin(&self, caller: &Pubkey) -> (r: Result<(), ErrorCode>)
        ensures
            r == if self.admin@ == caller@ {
                Ok::<(), ErrorCode>(())
            } else {
                Err::<(), ErrorCode>(ErrorCode::Unauthorized)
            },
    {
        if self.admin == *caller {
            Ok(())
        } else {
            Err(ErrorCode::Unauthorized)
        }
    }

    /// Adds `amount` to what is locked, or refuses with `ArithmeticOverflow`
    /// and changes nothing.
    pub fn lock(&mut self, amount: u64) -> (r: Result<(), ErrorCode>)
        ensures
            old(self).total_locked + amount <= u64::MAX ==> r is Ok && *final(self) == (PrivacyPool {
                total_locked: (old(self).total_locked + amount) as u64,
                ..*old(self)
            }),
            old(self).total_locked + amount > u64::MAX ==> r == Err::<(), ErrorCode>(
                ErrorCode::ArithmeticOverflow,
            ) && *final(self) == *old(self),
    {
        match self.total_locked.checked_add(amount) {
            Some(total) => {
                self.total_locked = total;
                Ok(())
            },
            None => Err(ErrorCode::ArithmeticOverflow),
        }
    }

    /// Takes `amount` from what is locked, or refuses with
    /// `InsufficientBalance` and changes nothing.
    pub fn unlock(&mut self, amount: u64) -> (r: Result<(), ErrorCode>)
        ensures
            amount <= old(self).total_locked ==> r is Ok && *final(self) == (PrivacyPool {
                total_locked: (old(self).total_locked - amount) as u64,
                ..*old(self)
            }),
            amount > old(self).total_locked ==> r == Err::<(), ErrorCode>(
                ErrorCode::InsufficientBalance,
            ) && *final(self) == *old(self),
    {
        match self.total_locked.checked_sub(amount) {
            Some(total) => {
                self.total_locked = total;
                Ok(())
            },
            None => Err(ErrorCode::InsufficientBalance),
        }
    }

    /// Splits `amount` into what is left after the pool's fee and the fee:
    /// the fee is `amount * fee_bps / 10000`, rounded down. Refuses with
    /// `ArithmeticOverflow` where the product leaves the range of `u64`, and
    /// with `AmountTooSmall` where the fee exceeds the amount.
    pub fn apply_fee(&self, amount: u64) -> (r: Result<(u64, u64), ErrorCode>)
        ensures
            r == split_of(amount, self.fee_bps),
            r matches Ok((net, fee)) ==> net + fee == amount && fee == fee_of(
                amount,
                self.fee_bps,
            ),
            self.wf() && amount * self.fee_bps <= u64::MAX ==> r is Ok,
    {
        split_fee(amount, self.fee_bps)
    }

    /// Sets the fee to `new_bps` basis points, or refuses with `FeeTooHigh`
    /// and changes nothing where that is more than 10000.
    pub fn set_fee(&mut self, new_bps: u16) -> (r: Result<(), ErrorCode>)
        ensures
            new_bps <= MAX_FEE_BPS ==> r is Ok && *final(self) == (PrivacyPool {
                fee_bps: new_bps,
                ..*old(self)
            }),
            new_bps > MAX_FEE_BPS ==> r == Err::<(), ErrorCode>(ErrorCode::FeeTooHigh)
                && *final(self) == *old(self),
            old(self).wf() ==> final(self).wf(),
    {
        if new_bps > MAX_FEE_BPS {
            return Err(ErrorCode::FeeTooHigh);
        }
        self.fee_bps = new_bps;
        Ok(())
    }
}

} // verus!
