//! Unshielding: value leaves the pool for a public recipient, against a
//! proof and a nullifier that can be spent once.

use vstd::prelude::*;
use crate::crypto::{encrypt_amount, homomorphic_sub, proof_admissible, verify_proof};
use crate::error::ErrorCode;
use crate::fee::{fee_of, net_of};
use crate::state::nullifier_registry::{lemma_register_appends, NullifierRegistry};
use crate::state::pool::PrivacyPool;
use crate::state::privacy_account::PrivacyAccount;
use crate::state::pubkey::Pubkey;

verus! {

/// What a withdrawal works on.
#[derive(Clone, Debug, PartialEq, Eq)]
pub struct WithdrawPrivate {
    /// The pool.
    pub pool: PrivacyPool,
    /// The pool's address.
    pub pool_key: Pubkey,
    /// The pool's nullifier registry.
    pub nullifier_registry: NullifierRegistry,
    /// The account that the value is taken from.
    pub privacy_account: PrivacyAccount,
    /// Who asks for the withdrawal.
    pub owner: Pubkey,
}

/// What a withdrawal reports: the value that has to leave the vault, how the
/// amount was split, and what the pool holds afterwards.
#[derive(Clone, Copy, Debug, PartialEq, Eq)]
pub struct WithdrawalEvent {
    /// The pool's address.
    pub pool: Pubkey,
    /// Whose account the value was taken from.
    pub owner: Pubkey,
    /// The value taken from the account and from the pool's total.
    pub amount: u64,
    /// The part of it that the pool keeps as its fee.
    pub fee: u64,
    /// The part of it that leaves the vault for the recipient.
    pub net_amount: u64,
    /// The nullifier that was consumed.
    pub nullifier: [u8; 32],
    /// What the pool holds after the withdrawal.
    pub total_locked: u64,
}

/// The public inputs that the proof of a withdrawal speaks of: the account's
/// commitment, then the nullifier.
pub open spec fn withdrawal_inputs(account: PrivacyAccount, nullifier: [u8; 32]) -> Seq<[u8; 32]> {
    seq![account.commitment, nullifier]
}

/// Why a withdrawal is turned down before the nullifier is looked up, if it
/// is. The checks come in this order: the pool is active; the amount is not
/// zero; the pool holds as much; the account is the asker's; the proof is
/// accepted.
pub open spec fn early_refusal(
    pool: PrivacyPool,
    account: PrivacyAccount,
    owner: Pubkey,
    amount: u64,
    nullifier: [u8; 32],
    proof: Seq<u8>,
) -> Option<ErrorCode> {
    if pool.paused {
        Some(ErrorCode::ProtocolPaused)
    } else if amount == 0 {
        Some(ErrorCode::InvalidAmount)
    } else if amount > pool.total_locked {
        Some(ErrorCode::InsufficientBalance)
    } else if account.owner@ != owner@ {
        Some(ErrorCode::InvalidOwner)
    } else if !proof_admissible(proof, withdrawal_inputs(account, nullifier)) {
        Some(ErrorCode::InvalidProof)
    } else {
        None
    }
}

/// Why a withdrawal is turned down once the nullifier has been found unused,
/// if it is: the fee cannot be computed, the account holds less than the
/// amount, or its total of withdrawals would overflow.
pub open spec fn late_refusal(pool: PrivacyPool, account: PrivacyAccount, amount: u64) -> Option<
    ErrorCode,
> {
    if amount * pool.fee_bps > u64::MAX {
        Some(ErrorCode::ArithmeticOverflow)
    } else if fee_of(amount, pool.fee_bps) > amount {
        Some(ErrorCode::AmountTooSmall)
    } else if amount > account.balance {
        Some(ErrorCode::InsufficientBalance)
    } else if account.total_withdrawals + amount > u64::MAX {
        Some(ErrorCode::ArithmeticOverflow)
    } else {
        None
    }
}

/// Runs the checks that come before the nullifier is looked up.
pub(crate) fn check_request(
    pool: &PrivacyPool,
    account: &PrivacyAccount,
    owner: &Pubkey,
    amount: u64,
    nullifier: &[u8; 32],
    proof: &[u8],
) -> (r: Result<(), ErrorCode>)
    ensures
        match early_refusal(*pool, *account, *owner, amount, *nullifier, proof@) {
            Some(e) => r == Err::<(), ErrorCode>(e),
            None => r is Ok,
        },
{
    if pool.paused {
        return Err(ErrorCode::ProtocolPaused);
    }
    if amount == 0 {
        return Err(ErrorCode::InvalidAmount);
    }
    if amount > pool.total_locked {
        return Err(ErrorCode::InsufficientBalance);
    }
    if account.owner != *owner {
        return Err(ErrorCode::InvalidOwner);
    }
    let public_inputs: [[u8; 32]; 2] = [account.commitment, *nullifier];
    assert(public_inputs@ =~= withdrawal_inputs(*account, *nullifier));
    if !verify_proof(proof, &public_inputs) {
        return Err(ErrorCode::InvalidProof);
    }
    Ok(())
}

/// Splits the amount into what is paid out and the fee, and runs the checks
/// that come after the nullifier has been found unused.
pub(crate) fn quote(pool: &PrivacyPool, account: &PrivacyAccount, amount: u64) -> (r: Result<
    (u64, u64),
    ErrorCode,
>)
    ensures
        match late_refusal(*pool, *account, amount) {
            Some(e) => r == Err::<(u64, u64), ErrorCode>(e),
            None => r == Ok::<(u64, u64), ErrorCode>(
                (net_of(amount, pool.fee_bps) as u64, fee_of(amount, pool.fee_bps) as u64),
            ) && 0 <= net_of(amount, pool.fee_bps) <= amount,
        },
{
    let (net, fee) = match pool.apply_fee(amount) {
        Ok(split) => split,
        Err(e) => {
            return Err(e);
        },
    };
    if amount > account.balance {
        return Err(ErrorCode::InsufficientBalance);
    }
    if amount > u64::MAX - account.total_withdrawals {
        return Err(ErrorCode::ArithmeticOverflow);
    }
    Ok((net, fee))
}

/// Takes the amount from the account and from the pool's total, counts it
/// as withdrawn, and stamps the account.
pub(crate) fn settle(pool: &mut PrivacyPool, account: &mut PrivacyAccount, amount: u64, slot: u64)
    requires
        amount <= old(pool).total_locked,
        amount <= old(account).balance,
        old(account).total_withdrawals + amount <= u64::MAX,
    ensures
        *final(pool) == (PrivacyPool {
            total_locked: (old(pool).total_locked - amount) as u64,
            ..*old(pool)
        }),
        old(account).debited(amount, slot, *final(account)),
{
    let debit = encrypt_amount(amount, &account.encryption_key);
    account.encrypted_balance = homomorphic_sub(&account.encrypted_balance, &debit);
    account.balance = account.balance - amount;
    account.total_withdrawals = account.total_withdrawals + amount;
    account.last_update = slot;
    pool.total_locked = pool.total_locked - amount;
}

impl WithdrawPrivate {
    /// Why a withdrawal is refused, if it is: for one of the reasons that
    /// come before the nullifier is looked up, for the registry's reason
    /// (it is bound to another pool, it holds the nullifier, it is full), or
    /// for one of the reasons that come after.
    pub open spec fn refusal(&self, amount: u64, nullifier: [u8; 32], proof: Seq<u8>) -> Option<
        ErrorCode,
    > {
        if early_refusal(self.pool, self.privacy_account, self.owner, amount, nullifier, proof)
            is Some {
            early_refusal(self.pool, self.privacy_account, self.owner, amount, nullifier, proof)
        } else if self.nullifier_registry.register_refusal(self.pool_key, nullifier) is Some {
            self.nullifier_registry.register_refusal(self.pool_key, nullifier)
        } else {
            late_refusal(self.pool, self.privacy_account, amount)
        }
    }

    /// Whether `post` and `r` are what a withdrawal makes of `self`. A
    /// refused withdrawal changes nothing. One that goes through consumes the
    /// nullifier, takes the amount from the account and from the pool's
    /// total, counts it as withdrawn, and reports the split.
    pub open spec fn gives(
        &self,
        amount: u64,
        nullifier: [u8; 32],
        proof: Seq<u8>,
        slot: u64,
        post: WithdrawPrivate,
        r: Result<WithdrawalEvent, ErrorCode>,
    ) -> bool {
        match self.refusal(amount, nullifier, proof) {
            Some(e) => r == Err::<WithdrawalEvent, ErrorCode>(e) && post == *self,
            None => {
                let fee = fee_of(amount, self.pool.fee_bps) as u64;
                let net = net_of(amount, self.pool.fee_bps) as u64;
                &&& r == Ok::<WithdrawalEvent, ErrorCode>(
                    WithdrawalEvent {
                        pool: self.pool_key,
                        owner: self.owner,
                        amount,
                        fee,
                        net_amount: net,
                        nullifier,
                        total_locked: post.pool.total_locked,
                    },
                )
                &&& post.pool == (PrivacyPool {
                    total_locked: (self.pool.total_locked - amount) as u64,
                    ..self.pool
                })
                &&& post.pool_key == self.pool_key
                &&& post.owner == self.owner
                &&& self.nullifier_registry.register_gives(
                    self.pool_key,
                    nullifier,
                    post.nullifier_registry,
                )
                &&& post.nullifier_registry.entries() == self.nullifier_registry.entries().push(
                    nullifier,
                )
                &&& self.privacy_account.debited(amount, slot, post.privacy_account)
            },
        }
    }
}

/// Withdraws `amount` from the asker's account: the nullifier is consumed,
/// the amount leaves the account and the pool's total, and the amount less
/// the pool's fee has to leave the vault. Nothing is changed unless every
/// check has passed, the nullifier's among them.
pub fn withdraw_private(
    ctx: &mut WithdrawPrivate,
    amount: u64,
    nullifier: [u8; 32],
    proof: &[u8],
    slot: u64,
) -> (r: Result<WithdrawalEvent, ErrorCode>)
    ensures
        old(ctx).gives(amount, nullifier, proof@, slot, *final(ctx), r),
        r is Err ==> *final(ctx) == *old(ctx),
        r matches Ok(event) ==> {
            &&& event.net_amount + event.fee == amount
            &&& final(ctx).pool.total_locked == old(ctx).pool.total_locked - amount
            &&& final(ctx).privacy_account.balance == old(ctx).privacy_account.balance - amount
        },
        r is Ok ==> final(ctx).nullifier_registry.is_used(nullifier),
        old(ctx).nullifier_registry.is_used(nullifier) ==> r is Err,
        old(ctx).nullifier_registry.wf() ==> final(ctx).nullifier_registry.wf(),
        old(ctx).pool.wf() ==> final(ctx).pool.wf(),
        amount > old(ctx).pool.total_locked ==> *final(ctx) == *old(ctx) && r == Err::<
            WithdrawalEvent,
            ErrorCode,
        >(
            if old(ctx).pool.paused {
                ErrorCode::ProtocolPaused
            } else {
                ErrorCode::InsufficientBalance
            },
        ),
{
    match check_request(&ctx.pool, &ctx.privacy_account, &ctx.owner, amount, &nullifier, proof) {
        Err(e) => {
            return Err(e);
        },
        Ok(_) => {},
    }
    match ctx.nullifier_registry.check_unused(&ctx.pool_key, &nullifier) {
        Err(e) => {
            return Err(e);
        },
        Ok(_) => {},
    }
    let (net, fee) = match quote(&ctx.pool, &ctx.privacy_account, amount) {
        Ok(split) => split,
        Err(e) => {
            return Err(e);
        },
    };
    let pool_key = ctx.pool_key;
    match ctx.nullifier_registry.register(&pool_key, nullifier) {
        Err(e) => {
            return Err(e);
        },
        Ok(_) => {},
    }
    settle(&mut ctx.pool, &mut ctx.privacy_account, amount, slot);
    Ok(
        WithdrawalEvent {
            pool: ctx.pool_key,
            owner: ctx.owner,
            amount,
            fee,
            net_amount: net,
            nullifier,
            total_locked: ctx.pool.total_locked,
        },
    )
}

/// A spend authorisation pays out at most once. Where a withdrawal went
/// through, any later withdrawal with the same nullifier, on whatever account
/// and for whatever amount, against the registry that the first one left, is
/// refused and changes nothing; and where it gets as far as the registry, the
/// refusal is `NullifierAlreadyUsed`.
pub proof fn lemma_replay_is_refused(
    first: WithdrawPrivate,
    first_amount: u64,
    first_proof: Seq<u8>,
    first_slot: u64,
    after_first: WithdrawPrivate,
    first_result: Result<WithdrawalEvent, ErrorCode>,
    nullifier: [u8; 32],
    replay: WithdrawPrivate,
    amount: u64,
    proof: Seq<u8>,
    slot: u64,
    after_replay: WithdrawPrivate,
    result: Result<WithdrawalEvent, ErrorCode>,
)
    requires
        first.gives(first_amount, nullifier, first_proof, first_slot, after_first, first_result),
        first_result is Ok,
        replay.nullifier_registry == after_first.nullifier_registry,
        replay.pool_key == after_first.pool_key,
        replay.gives(amount, nullifier, proof, slot, after_replay, result),
    ensures
        result is Err,
        after_replay == replay,
        after_replay.pool.total_locked == replay.pool.total_locked,
        after_replay.privacy_account.balance == replay.privacy_account.balance,
        early_refusal(replay.pool, replay.privacy_account, replay.owner, amount, nullifier, proof)
            is None ==> result == Err::<WithdrawalEvent, ErrorCode>(
            ErrorCode::NullifierAlreadyUsed,
        ),
{
    lemma_register_appends(
        first.nullifier_registry,
        first.pool_key,
        nullifier,
        after_first.nullifier_registry,
    );
    assert(replay.nullifier_registry.is_used(nullifier));
    assert(replay.nullifier_registry.pool@ == replay.pool_key@);
}

} // verus!
