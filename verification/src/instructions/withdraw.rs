//! Unshielding where each nullifier has a record of its own: the record's
//! place is found by the nullifier's value, and a place that is taken means
//! that the nullifier has been spent.

use vstd::prelude::*;
use crate::error::ErrorCode;
use crate::fee::{fee_of, net_of};
use crate::instructions::withdraw_private::{
    check_request, early_refusal, late_refusal, quote, settle, WithdrawalEvent,
};
use crate::state::nullifier_registry::NullifierSet;
use crate::state::pool::PrivacyPool;
use crate::state::privacy_account::PrivacyAccount;
use crate::state::pubkey::Pubkey;

verus! {

/// What such a withdrawal works on.
#[derive(Clone, Copy, Debug, PartialEq, Eq)]
pub struct Withdraw {
    /// The pool.
    pub pool: PrivacyPool,
    /// The pool's address.
    pub pool_key: Pubkey,
    /// The account that the value is taken from.
    pub privacy_account: PrivacyAccount,
    /// What is kept at the place that belongs to the nullifier: nothing
    /// while the nullifier is unspent.
    pub nullifier_account: Option<NullifierSet>,
    /// Who asks for the withdrawal.
    pub owner: Pubkey,
}

impl Withdraw {
    /// Why a withdrawal is refused, if it is: for one of the reasons that
    /// come before the nullifier is looked up, because the nullifier's place
    /// is taken, or for one of the reasons that come after.
    pub open spec fn refusal(&self, amount: u64, nullifier: [u8; 32], proof: Seq<u8>) -> Option<
        ErrorCode,
    > {
        if early_refusal(self.pool, self.privacy_account, self.owner, amount, nullifier, proof)
            is Some {
            early_refusal(self.pool, self.privacy_account, self.owner, amount, nullifier, proof)
        } else if self.nullifier_account is Some {
            Some(ErrorCode::NullifierAlreadyUsed)
        } else {
            late_refusal(self.pool, self.privacy_account, amount)
        }
    }

    /// Whether `post` and `r` are what a withdrawal makes of `self`. A
    /// refused withdrawal changes nothing. One that goes through fills the
    /// nullifier's place, takes the amount from the account and from the
    /// pool's total, counts it as withdrawn, and reports the split.
    pub open spec fn gives(
        &self,
        amount: u64,
        nullifier: [u8; 32],
        proof: Seq<u8>,
        slot: u64,
        bump: u8,
        post: Withdraw,
        r: Result<WithdrawalEvent, ErrorCode>,
    ) -> bool {
        match self.refusal(amount, nullifier, proof) {
            Some(e) => r == Err::<WithdrawalEvent, ErrorCode>(e) && post == *self,
            None => {
                let fee = fee_of(amount, self.pool.fee_bps) as u64;
                let net = net_of(amount, self.pool.fee_bps) as u64;
                &&& r == Ok::<WithdrawalEvent, ErrorCode>(
                    WithdrawalEvent {
                        pool: self.pool_key,
                        owner: self.owner,
                        amount,
                        fee,
                        net_amount: net,
                        nullifier,
                        total_locked: post.pool.total_locked,
                    },
                )
                &&& post.pool == (PrivacyPool {
                    total_locked: (self.pool.total_locked - amount) as u64,
                    ..self.pool
                })
                &&& post.pool_key == self.pool_key
                &&& post.owner == self.owner
                &&& post.nullifier_account == Some(
                    NullifierSet { pool: self.pool_key, nullifier, slot, bump },
                )
                &&& self.privacy_account.debited(amount, slot, post.privacy_account)
            },
        }
    }
}

/// Withdraws `amount` from the asker's account: the nullifier's place is
/// filled, the amount leaves the account and the pool's total, and the amount
/// less the pool's fee has to leave the vault. Nothing is changed unless
/// every check has passed; a place that is taken already refuses with
/// `NullifierAlreadyUsed`.
pub fn withdraw(
    ctx: &mut Withdraw,
    amount: u64,
    nullifier: [u8; 32],
    proof: &[u8],
    slot: u64,
    bump: u8,
) -> (r: Result<WithdrawalEvent, ErrorCode>)
    ensures
        old(ctx).gives(amount, nullifier, proof@, slot, bump, *final(ctx), r),
        r is Err ==> *final(ctx) == *old(ctx),
        r matches Ok(event) ==> {
            &&& event.net_amount + event.fee == amount
            &&& final(ctx).pool.total_locked == old(ctx).pool.total_locked - amount
            &&& final(ctx).privacy_account.balance == old(ctx).privacy_account.balance - amount
        },
        r is Ok ==> final(ctx).nullifier_account is Some,
        old(ctx).nullifier_account is Some ==> r is Err,
        amount > old(ctx).pool.total_locked ==> *final(ctx) == *old(ctx) && r == Err::<
            WithdrawalEvent,
            ErrorCode,
        >(
            if old(ctx).pool.paused {
                ErrorCode::ProtocolPaused
            } else {
                ErrorCode::InsufficientBalance
            },
        ),
{
    match check_request(&ctx.pool, &ctx.privacy_account, &ctx.owner, amount, &nullifier, proof) {
        Err(e) => {
            return Err(e);
        },
        Ok(_) => {},
    }
    if ctx.nullifier_account.is_some() {
        return Err(ErrorCode::NullifierAlreadyUsed);
    }
    let (net, fee) = match quote(&ctx.pool, &ctx.privacy_account, amount) {
        Ok(split) => split,
        Err(e) => {
            return Err(e);
        },
    };
    ctx.nullifier_account = Some(NullifierSet { pool: ctx.pool_key, nullifier, slot, bump });
    settle(&mut ctx.pool, &mut ctx.privacy_account, amount, slot);
    Ok(
        WithdrawalEvent {
            pool: ctx.pool_key,
            owner: ctx.owner,
            amount,
            fee,
            net_amount: net,
            nullifier,
            total_locked: ctx.pool.total_locked,
        },
    )
}

} // verus!
