//! Shielding where the pool keeps no registry of commitments: public value
//! comes into the pool and is credited, net of the fee, to the depositor's
//! account.

use vstd::prelude::*;
use crate::error::ErrorCode;
use crate::fee::{fee_of, net_of};
use crate::instructions::deposit_private::{
    check_deposit, credit, credit_refusal, opened, DepositEvent,
};
use crate::state::pool::PrivacyPool;
use crate::state::privacy_account::PrivacyAccount;
use crate::state::pubkey::Pubkey;

verus! {

/// What such a deposit works on.
#[derive(Clone, Copy, Debug, PartialEq, Eq)]
pub struct Deposit {
    /// The pool.
    pub pool: PrivacyPool,
    /// The pool's address.
    pub pool_key: Pubkey,
    /// The depositor's account; an account of nobody becomes the
    /// depositor's.
    pub privacy_account: PrivacyAccount,
    /// The depositor.
    pub user: Pubkey,
}

impl Deposit {
    /// Why a deposit of `amount` is refused, if it is.
    pub open spec fn refusal(&self, amount: u64) -> Option<ErrorCode> {
        credit_refusal(self.pool, self.privacy_account, self.user, amount)
    }

    /// Whether `post` and `r` are what a deposit of `amount` at `slot` makes
    /// of `self`. A refused deposit changes nothing. One that goes through
    /// credits the net amount to the account and to the pool's total, and
    /// reports the split.
    pub open spec fn gives(
        &self,
        amount: u64,
        slot: u64,
        post: Deposit,
        r: Result<DepositEvent, ErrorCode>,
    ) -> bool {
        match self.refusal(amount) {
            Some(e) => r == Err::<DepositEvent, ErrorCode>(e) && post == *self,
            None => {
                let fee = fee_of(amount, self.pool.fee_bps) as u64;
                let net = net_of(amount, self.pool.fee_bps) as u64;
                &&& r == Ok::<DepositEvent, ErrorCode>(
                    DepositEvent {
                        pool: self.pool_key,
                        owner: self.user,
                        amount,
                        fee,
                        net_amount: net,
                        commitment: None,
                        total_locked: post.pool.total_locked,
                    },
                )
                &&& post.pool == (PrivacyPool {
                    total_locked: (self.pool.total_locked + net) as u64,
                    ..self.pool
                })
                &&& post.pool_key == self.pool_key
                &&& post.user == self.user
                &&& opened(self.privacy_account, self.user).credited(
                    net,
                    slot,
                    post.privacy_account,
                )
            },
        }
    }
}

/// Deposits `amount` for the depositor: the whole amount has to move into
/// the vault, the pool's fee is taken from it, and what is left is credited
/// to the account and to the pool's total.
pub fn deposit(ctx: &mut Deposit, amount: u64, slot: u64) -> (r: Result<DepositEvent, ErrorCode>)
    ensures
        old(ctx).gives(amount, slot, *final(ctx), r),
        r is Err ==> *final(ctx) == *old(ctx),
        r matches Ok(event) ==> {
            &&& event.net_amount + event.fee == amount
            &&& final(ctx).pool.total_locked == old(ctx).pool.total_locked + event.net_amount
            &&& final(ctx).privacy_account.balance == opened(
                old(ctx).privacy_account,
                old(ctx).user,
            ).balance + event.net_amount
        },
        old(ctx).pool.wf() ==> final(ctx).pool.wf(),
{
    let (net, fee) = match check_deposit(&ctx.pool, &ctx.privacy_account, &ctx.user, amount) {
        Ok(split) => split,
        Err(e) => {
            return Err(e);
        },
    };
    let user = ctx.user;
    credit(&mut ctx.pool, &mut ctx.privacy_account, &user, net, slot);
    Ok(
        DepositEvent {
            pool: ctx.pool_key,
            owner: ctx.user,
            amount,
            fee,
            net_amount: net,
            commitment: None,
            total_locked: ctx.pool.total_locked,
        },
    )
}

} // verus!
