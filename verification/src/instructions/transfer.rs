//! Transfers of plain amounts between shielded accounts: value changes hands
//! inside the pool, and nothing enters or leaves the vault.

use vstd::prelude::*;
use crate::crypto::verify_proof;
use crate::error::ErrorCode;
use crate::instructions::transfer_private::{check_sender, transfer_inputs, transfer_refusal};
use crate::state::pool::PrivacyPool;
use crate::state::privacy_account::PrivacyAccount;
use crate::state::pubkey::Pubkey;

verus! {

/// What a transfer of a plain amount works on.
#[derive(Clone, Copy, Debug, PartialEq, Eq)]
pub struct Transfer {
    /// The pool; a transfer reads it and leaves it as it is.
    pub pool: PrivacyPool,
    /// The account that gives.
    pub sender_account: PrivacyAccount,
    /// The account that receives.
    pub recipient_account: PrivacyAccount,
    /// Who asks for the transfer.
    pub sender: Pubkey,
}

impl Transfer {
    /// Why a transfer of `amount` is refused, if it is: for one of the
    /// reasons that turn down every transfer, or because the giving account
    /// holds less, or because the receiving account's balance would
    /// overflow.
    pub open spec fn refusal(&self, amount: u64, proof: Seq<u8>) -> Option<ErrorCode> {
        if transfer_refusal(
            self.pool,
            self.sender_account,
            self.recipient_account,
            self.sender,
            proof,
        ) is Some {
            transfer_refusal(
                self.pool,
                self.sender_account,
                self.recipient_account,
                self.sender,
                proof,
            )
        } else if amount > self.sender_account.balance {
            Some(ErrorCode::InsufficientBalance)
        } else if self.recipient_account.balance + amount > u64::MAX {
            Some(ErrorCode::ArithmeticOverflow)
        } else {
            None
        }
    }

    /// Whether `post` and `r` are what a transfer of `amount` makes of
    /// `self`. A refused transfer changes nothing. One that goes through
    /// takes the amount from the sender's balance, adds it to the
    /// recipient's, and stamps both accounts.
    pub open spec fn gives(
        &self,
        amount: u64,
        proof: Seq<u8>,
        slot: u64,
        post: Transfer,
        r: Result<(), ErrorCode>,
    ) -> bool {
        match self.refusal(amount, proof) {
            Some(e) => r == Err::<(), ErrorCode>(e) && post == *self,
            None => {
                &&& r is Ok
                &&& post.pool == self.pool
                &&& post.sender == self.sender
                &&& post.sender_account == (PrivacyAccount {
                    balance: (self.sender_account.balance - amount) as u64,
                    last_update: slot,
                    ..self.sender_account
                })
                &&& post.recipient_account == (PrivacyAccount {
                    balance: (self.recipient_account.balance + amount) as u64,
                    last_update: slot,
                    ..self.recipient_account
                })
            },
        }
    }
}

/// Moves `amount` from the sender's balance to the recipient's. What the two
/// accounts hold together stays the same, and so do the pool and the
/// registries; no nullifier is consumed.
pub fn transfer(ctx: &mut Transfer, amount: u64, proof: &[u8], slot: u64) -> (r: Result<
    (),
    ErrorCode,
>)
    ensures
        old(ctx).gives(amount, proof@, slot, *final(ctx), r),
        r is Err ==> *final(ctx) == *old(ctx),
        final(ctx).pool == old(ctx).pool,
        final(ctx).sender_account.balance + final(ctx).recipient_account.balance == old(
            ctx,
        ).sender_account.balance + old(ctx).recipient_account.balance,
{
    match check_sender(&ctx.pool, &ctx.sender_account, &ctx.sender) {
        Err(e) => {
            return Err(e);
        },
        Ok(_) => {},
    }
    let public_inputs: [[u8; 32]; 2] = [
        ctx.sender_account.commitment,
        ctx.recipient_account.commitment,
    ];
    assert(public_inputs@ =~= transfer_inputs(ctx.sender_account, ctx.recipient_account));
    if !verify_proof(proof, &public_inputs) {
        return Err(ErrorCode::InvalidProof);
    }
    if amount > ctx.sender_account.balance {
        return Err(ErrorCode::InsufficientBalance);
    }
    let credited = match ctx.recipient_account.balance.checked_add(amount) {
        Some(v) => v,
        None => {
            return Err(ErrorCode::ArithmeticOverflow);
        },
    };
    ctx.sender_account.balance = ctx.sender_account.balance - amount;
    ctx.recipient_account.balance = credited;
    ctx.sender_account.last_update = slot;
    ctx.recipient_account.last_update = slot;
    Ok(())
}

} // verus!
