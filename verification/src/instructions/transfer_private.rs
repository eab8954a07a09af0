//! Transfers of balance blobs between shielded accounts: value changes hands
//! inside the pool, and nothing enters or leaves the vault.

use vstd::prelude::*;
use crate::crypto::{
    add_encrypted, blob_add, blob_sub, proof_admissible, subtract_encrypted,
    verify_transfer_proof,
};
use crate::error::ErrorCode;
use crate::state::pool::PrivacyPool;
use crate::state::privacy_account::PrivacyAccount;
use crate::state::pubkey::Pubkey;

verus! {

/// What a transfer of a blob works on.
#[derive(Clone, Copy, Debug, PartialEq, Eq)]
pub struct TransferPrivate {
    /// The pool; a transfer reads it and leaves it as it is.
    pub pool: PrivacyPool,
    /// The account that gives.
    pub sender_account: PrivacyAccount,
    /// The account that receives.
    pub recipient_account: PrivacyAccount,
    /// Who asks for the transfer.
    pub sender: Pubkey,
}

/// The public inputs that the proof of a transfer speaks of: the sender's
/// commitment, then the recipient's.
pub open spec fn transfer_inputs(
    sender_account: PrivacyAccount,
    recipient_account: PrivacyAccount,
) -> Seq<[u8; 32]> {
    seq![sender_account.commitment, recipient_account.commitment]
}

/// Why a transfer is turned down whatever it moves, if it is. The checks
/// come in this order: the pool is active; the giving account is the
/// asker's; the proof is accepted.
pub open spec fn transfer_refusal(
    pool: PrivacyPool,
    sender_account: PrivacyAccount,
    recipient_account: PrivacyAccount,
    sender: Pubkey,
    proof: Seq<u8>,
) -> Option<ErrorCode> {
    if pool.paused {
        Some(ErrorCode::ProtocolPaused)
    } else if sender_account.owner@ != sender@ {
        Some(ErrorCode::Unauthorized)
    } else if !proof_admissible(proof, transfer_inputs(sender_account, recipient_account)) {
        Some(ErrorCode::InvalidProof)
    } else {
        None
    }
}

/// Whether the pool is active and the giving account is the asker's.
pub(crate) fn check_sender(pool: &PrivacyPool, sender_account: &PrivacyAccount, sender: &Pubkey)
    -> (r: Result<(), ErrorCode>)
    ensures
        r == if pool.paused {
            Err::<(), ErrorCode>(ErrorCode::ProtocolPaused)
        } else if sender_account.owner@ != sender@ {
            Err::<(), ErrorCode>(ErrorCode::Unauthorized)
        } else {
            Ok::<(), ErrorCode>(())
        },
{
    if pool.paused {
        return Err(ErrorCode::ProtocolPaused);
    }
    if sender_account.owner != *sender {
        return Err(ErrorCode::Unauthorized);
    }
    Ok(())
}

impl TransferPrivate {
    /// Why a transfer is refused, if it is.
    pub open spec fn refusal(&self, proof: Seq<u8>) -> Option<ErrorCode> {
        transfer_refusal(
            self.pool,
            self.sender_account,
            self.recipient_account,
            self.sender,
            proof,
        )
    }

    /// Whether `post` and `r` are what a transfer of the blob
    /// `encrypted_amount` makes of `self`. A refused transfer changes
    /// nothing. One that goes through takes the blob from the sender's
    /// balance blob, adds it to the recipient's, and stamps both accounts.
    pub open spec fn gives(
        &self,
        encrypted_amount: [u8; 64],
        proof: Seq<u8>,
        slot: u64,
        post: TransferPrivate,
        r: Result<(), ErrorCode>,
    ) -> bool {
        match self.refusal(proof) {
            Some(e) => r == Err::<(), ErrorCode>(e) && post == *self,
            None => {
                &&& r is Ok
                &&& post.pool == self.pool
                &&& post.sender == self.sender
                &&& post.sender_account.encrypted_balance@ == blob_sub(
                    self.sender_account.encrypted_balance@,
                    encrypted_amount@,
                )
                &&& post.recipient_account.encrypted_balance@ == blob_add(
                    self.recipient_account.encrypted_balance@,
                    encrypted_amount@,
                )
                &&& post.sender_account == (PrivacyAccount {
                    encrypted_balance: post.sender_account.encrypted_balance,
                    last_update: slot,
                    ..self.sender_account
                })
                &&& post.recipient_account == (PrivacyAccount {
                    encrypted_balance: post.recipient_account.encrypted_balance,
                    last_update: slot,
                    ..self.recipient_account
                })
            },
        }
    }
}

/// Moves the blob `encrypted_amount` from the sender's balance blob to the
/// recipient's. The plain balances, the pool and the registries stay as they
/// are, and no nullifier is consumed.
pub fn transfer_private(
    ctx: &mut TransferPrivate,
    encrypted_amount: [u8; 64],
    proof: &[u8],
    slot: u64,
) -> (r: Result<(), ErrorCode>)
    ensures
        old(ctx).gives(encrypted_amount, proof@, slot, *final(ctx), r),
        r is Err ==> *final(ctx) == *old(ctx),
        final(ctx).pool == old(ctx).pool,
        final(ctx).sender_account.balance == old(ctx).sender_account.balance,
        final(ctx).recipient_account.balance == old(ctx).recipient_account.balance,
{
    match check_sender(&ctx.pool, &ctx.sender_account, &ctx.sender) {
        Err(e) => {
            return Err(e);
        },
        Ok(_) => {},
    }
    if !verify_transfer_proof(
        &ctx.sender_account.encrypted_balance,
        &encrypted_amount,
        &ctx.sender_account.commitment,
        &ctx.recipient_account.commitment,
        proof,
    ) {
        return Err(ErrorCode::InvalidProof);
    }
    let sender_blob = match subtract_encrypted(
        &ctx.sender_account.encrypted_balance,
        &encrypted_amount,
    ) {
        Ok(blob) => blob,
        Err(e) => {
            return Err(e);
        },
    };
    let recipient_blob = match add_encrypted(
        &ctx.recipient_account.encrypted_balance,
        &encrypted_amount,
    ) {
        Ok(blob) => blob,
        Err(e) => {
            return Err(e);
        },
    };
    ctx.sender_account.encrypted_balance = sender_blob;
    ctx.recipient_account.encrypted_balance = recipient_blob;
    ctx.sender_account.last_update = slot;
    ctx.recipient_account.last_update = slot;
    Ok(())
}

} // verus!
