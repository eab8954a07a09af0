//! Shielding: public value comes into the pool and is credited, net of the
//! fee, to the depositor's account, and a commitment to the credit is left
//! in the pool's registry.

use vstd::prelude::*;
use crate::bytes::zero32;
use crate::crypto::{
    commitment, deposit_preimage, encrypt_amount, homomorphic_add, solana_hash,
};
use crate::error::ErrorCode;
use crate::fee::{fee_of, net_of};
use crate::state::commitment_registry::CommitmentRegistry;
use crate::state::pool::PrivacyPool;
use crate::state::privacy_account::PrivacyAccount;
use crate::state::pubkey::Pubkey;

verus! {

/// What a deposit with a commitment works on.
#[derive(Clone, Debug, PartialEq, Eq)]
pub struct DepositPrivate {
    /// The pool.
    pub pool: PrivacyPool,
    /// The pool's address.
    pub pool_key: Pubkey,
    /// The pool's commitment registry.
    pub commitment_registry: CommitmentRegistry,
    /// The depositor's account; an account of nobody becomes the
    /// depositor's.
    pub privacy_account: PrivacyAccount,
    /// The depositor.
    pub user: Pubkey,
}

/// What a deposit reports: the value that has to move into the vault, how it
/// was split, and what the pool holds afterwards.
#[derive(Clone, Copy, Debug, PartialEq, Eq)]
pub struct DepositEvent {
    /// The pool's address.
    pub pool: Pubkey,
    /// The depositor.
    pub owner: Pubkey,
    /// The value that moves into the vault.
    pub amount: u64,
    /// The part of it that the pool keeps as its fee.
    pub fee: u64,
    /// The part of it that was credited.
    pub net_amount: u64,
    /// The commitment that was entered in the registry, if one was.
    pub commitment: Option<[u8; 32]>,
    /// What the pool holds after the deposit.
    pub total_locked: u64,
}

/// The account that a deposit by `user` is credited to, before the credit:
/// the given one, or the untouched account of the depositor where the given
/// one is nobody's.
pub open spec fn opened(account: PrivacyAccount, user: Pubkey) -> PrivacyAccount {
    if account.owner.is_unset() {
        PrivacyAccount::fresh(user, zero32())
    } else {
        account
    }
}

/// Why the credit of a deposit of `amount` is refused, if it is. The checks
/// come in this order: the pool is active; the amount is not zero; the
/// account is nobody's or the depositor's; the fee can be computed; neither
/// the account's balance, nor the pool's total, nor the account's total of
/// deposits overflows.
pub open spec fn credit_refusal(
    pool: PrivacyPool,
    account: PrivacyAccount,
    user: Pubkey,
    amount: u64,
) -> Option<ErrorCode> {
    if pool.paused {
        Some(ErrorCode::ProtocolPaused)
    } else if amount == 0 {
        Some(ErrorCode::InvalidAmount)
    } else if !account.owner.is_unset() && account.owner@ != user@ {
        Some(ErrorCode::InvalidOwner)
    } else if amount * pool.fee_bps > u64::MAX {
        Some(ErrorCode::ArithmeticOverflow)
    } else if fee_of(amount, pool.fee_bps) > amount {
        Some(ErrorCode::AmountTooSmall)
    } else if opened(account, user).balance + net_of(amount, pool.fee_bps) > u64::MAX
        || pool.total_locked + net_of(amount, pool.fee_bps) > u64::MAX || opened(
        account,
        user,
    ).total_deposits + net_of(amount, pool.fee_bps) > u64::MAX {
        Some(ErrorCode::ArithmeticOverflow)
    } else {
        None
    }
}

/// Runs the checks on the credit of a deposit, and splits the amount into
/// what is credited and the fee.
pub(crate) fn check_deposit(
    pool: &PrivacyPool,
    account: &PrivacyAccount,
    user: &Pubkey,
    amount: u64,
) -> (r: Result<(u64, u64), ErrorCode>)
    ensures
        match credit_refusal(*pool, *account, *user, amount) {
            Some(e) => r == Err::<(u64, u64), ErrorCode>(e),
            None => r == Ok::<(u64, u64), ErrorCode>(
                (net_of(amount, pool.fee_bps) as u64, fee_of(amount, pool.fee_bps) as u64),
            ) && 0 <= net_of(amount, pool.fee_bps) <= amount,
        },
{
    if pool.paused {
        return Err(ErrorCode::ProtocolPaused);
    }
    if amount == 0 {
        return Err(ErrorCode::InvalidAmount);
    }
    let is_new = account.owner.is_default();
    if !is_new && account.owner != *user {
        return Err(ErrorCode::InvalidOwner);
    }
    let (net, fee) = match pool.apply_fee(amount) {
        Ok(split) => split,
        Err(e) => {
            return Err(e);
        },
    };
    let balance: u64 = if is_new {
        0
    } else {
        account.balance
    };
    let total_deposits: u64 = if is_new {
        0
    } else {
        account.total_deposits
    };
    if net > u64::MAX - balance || net > u64::MAX - pool.total_locked || net > u64::MAX
        - total_deposits {
        return Err(ErrorCode::ArithmeticOverflow);
    }
    Ok((net, fee))
}

/// Credits `net` to the account and to the pool's total, counts it as
/// deposited, and stamps the account. An account of nobody becomes the
/// untouched account of `user` first.
pub(crate) fn credit(
    pool: &mut PrivacyPool,
    account: &mut PrivacyAccount,
    user: &Pubkey,
    net: u64,
    slot: u64,
)
    requires
        opened(*old(account), *user).balance + net <= u64::MAX,
        opened(*old(account), *user).total_deposits + net <= u64::MAX,
        old(pool).total_locked + net <= u64::MAX,
    ensures
        *final(pool) == (PrivacyPool {
            total_locked: (old(pool).total_locked + net) as u64,
            ..*old(pool)
        }),
        opened(*old(account), *user).credited(net, slot, *final(account)),
{
    if account.owner.is_default() {
        *account = PrivacyAccount::new(*user, [0u8; 32]);
    }
    let blob = encrypt_amount(net, &account.encryption_key);
    account.encrypted_balance = homomorphic_add(&account.encrypted_balance, &blob);
    account.balance = account.balance + net;
    account.total_deposits = account.total_deposits + net;
    account.last_update = slot;
    pool.total_locked = pool.total_locked + net;
}

impl DepositPrivate {
    /// Why a deposit of `amount` is refused, if it is: the credit is
    /// refused, or the registry is bound to another pool, or it is full.
    pub open spec fn refusal(&self, amount: u64) -> Option<ErrorCode> {
        if credit_refusal(self.pool, self.privacy_account, self.user, amount) is Some {
            credit_refusal(self.pool, self.privacy_account, self.user, amount)
        } else {
            self.commitment_registry.add_refusal(self.pool_key)
        }
    }

    /// Whether `post` and `r` are what a deposit of `amount` at `slot`, with
    /// `commitment` for the registry, makes of `self`. A refused deposit
    /// changes nothing. One that goes through credits the net amount to the
    /// account and to the pool's total, enters the commitment, and reports
    /// the split.
    pub open spec fn gives(
        &self,
        amount: u64,
        commitment: [u8; 32],
        slot: u64,
        post: DepositPrivate,
        r: Result<DepositEvent, ErrorCode>,
    ) -> bool {
        match self.refusal(amount) {
            Some(e) => r == Err::<DepositEvent, ErrorCode>(e) && post == *self,
            None => {
                let fee = fee_of(amount, self.pool.fee_bps) as u64;
                let net = net_of(amount, self.pool.fee_bps) as u64;
                &&& r == Ok::<DepositEvent, ErrorCode>(
                    DepositEvent {
                        pool: self.pool_key,
                        owner: self.user,
                        amount,
                        fee,
                        net_amount: net,
                        commitment: Some(commitment),
                        total_locked: post.pool.total_locked,
                    },
                )
                &&& post.pool == (PrivacyPool {
                    total_locked: (self.pool.total_locked + net) as u64,
                    ..self.pool
                })
                &&& post.pool_key == self.pool_key
                &&& post.user == self.user
                &&& self.commitment_registry.add_gives(
                    self.pool_key,
                    commitment,
                    post.commitment_registry,
                )
                &&& post.commitment_registry.entries() == self.commitment_registry.entries().push(
                    commitment,
                )
                &&& opened(self.privacy_account, self.user).credited(
                    net,
                    slot,
                    post.privacy_account,
                )
            },
        }
    }
}

/// Deposits `amount` for the depositor and enters `commitment` in the
/// registry: the whole amount has to move into the vault, the pool's fee is
/// taken from it, and what is left is credited to the account and to the
/// pool's total.
pub fn deposit_with_commitment(
    ctx: &mut DepositPrivate,
    amount: u64,
    commitment: [u8; 32],
    slot: u64,
) -> (r: Result<DepositEvent, ErrorCode>)
    ensures
        old(ctx).gives(amount, commitment, slot, *final(ctx), r),
        r is Err ==> *final(ctx) == *old(ctx),
        r matches Ok(event) ==> {
            &&& event.net_amount + event.fee == amount
            &&& final(ctx).pool.total_locked == old(ctx).pool.total_locked + event.net_amount
            &&& final(ctx).privacy_account.balance == opened(
                old(ctx).privacy_account,
                old(ctx).user,
            ).balance + event.net_amount
        },
        old(ctx).commitment_registry.wf() ==> final(ctx).commitment_registry.wf(),
        old(ctx).pool.wf() ==> final(ctx).pool.wf(),
{
    let (net, fee) = match check_deposit(&ctx.pool, &ctx.privacy_account, &ctx.user, amount) {
        Ok(split) => split,
        Err(e) => {
            return Err(e);
        },
    };
    let pool_key = ctx.pool_key;
    match ctx.commitment_registry.add_commitment(&pool_key, commitment) {
        Err(e) => {
            return Err(e);
        },
        Ok(_) => {},
    }
    let user = ctx.user;
    credit(&mut ctx.pool, &mut ctx.privacy_account, &user, net, slot);
    Ok(
        DepositEvent {
            pool: ctx.pool_key,
            owner: ctx.user,
            amount,
            fee,
            net_amount: net,
            commitment: Some(commitment),
            total_locked: ctx.pool.total_locked,
        },
    )
}

/// Deposits `amount` for the depositor, as `deposit_with_commitment` does,
/// with the commitment that is derived from the depositor, the net amount
/// and `nonce`.
pub fn deposit_private(ctx: &mut DepositPrivate, amount: u64, nonce: u64, slot: u64) -> (r: Result<
    DepositEvent,
    ErrorCode,
>)
    ensures
        match r {
            Ok(event) => {
                &&& old(ctx).refusal(amount) is None
                &&& event.net_amount + event.fee == amount
                &&& event.commitment matches Some(c)
                &&& c@ == solana_hash(deposit_preimage(old(ctx).user@, event.net_amount, nonce))
                &&& old(ctx).gives(amount, c, slot, *final(ctx), r)
            },
            Err(e) => old(ctx).refusal(amount) == Some(e) && *final(ctx) == *old(ctx),
        },
        old(ctx).commitment_registry.wf() ==> final(ctx).commitment_registry.wf(),
        old(ctx).pool.wf() ==> final(ctx).pool.wf(),
{
    let net = match ctx.pool.apply_fee(amount) {
        Ok((net, _)) => net,
        Err(_) => 0,
    };
    let c = commitment(&ctx.user, net, nonce);
    deposit_with_commitment(ctx, amount, c, slot)
}

} // verus!
