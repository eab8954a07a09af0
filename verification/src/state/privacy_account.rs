//! One owner's shielded account: a plain balance, a balance blob, and
//! running totals.

use vstd::prelude::*;
use crate::bytes::{all_zero, zero32, zero64};
use crate::crypto::{blob_add, blob_sub, encrypted_amount};
use crate::error::ErrorCode;
use crate::state::pubkey::Pubkey;

verus! {

/// The shielded account of one owner.
#[derive(Clone, Copy, Debug, PartialEq, Eq)]
pub struct PrivacyAccount {
    /// Whose account this is; the all-zero key while it is nobody's.
    pub owner: Pubkey,
    /// What the account holds.
    pub balance: u64,
    /// What the account holds, as a blob under `encryption_key`.
    pub encrypted_balance: [u8; 64],
    /// The commitment that proofs about the account speak of.
    pub commitment: [u8; 32],
    /// The key that amounts are encrypted under.
    pub encryption_key: [u8; 32],
    /// A counter kept for the owner; the operations here carry it along
    /// unchanged.
    pub nonce: u64,
    /// The net value ever shielded into the account.
    pub total_deposits: u64,
    /// The value ever unshielded from the account.
    pub total_withdrawals: u64,
    /// When the account was last changed.
    pub last_update: u64,
}

impl PrivacyAccount {
    /// The bytes that an account takes up where it is kept: a tag of eight
    /// bytes and the fields.
    pub const SIZE: usize = 8 + 32 + 8 + 64 + 32 + 32 + 8 + 8 + 8 + 8;

    /// The untouched account of `owner` with key `encryption_key`: nothing
    /// held, nothing counted, everything else zero.
    pub open spec fn fresh(owner: Pubkey, encryption_key: [u8; 32]) -> PrivacyAccount {
        PrivacyAccount {
            owner,
            balance: 0,
            encrypted_balance: zero64(),
            commitment: zero32(),
            encryption_key,
            nonce: 0,
            total_deposits: 0,
            total_withdrawals: 0,
            last_update: 0,
        }
    }

    /// Whether `post` is this account after `net` was shielded into it at
    /// `slot`.
    pub open spec fn credited(&self, net: u64, slot: u64, post: PrivacyAccount) -> bool {
        &&& post.owner == self.owner
        &&& post.balance == self.balance + net
        &&& post.encrypted_balance@ == blob_add(
            self.encrypted_balance@,
            encrypted_amount(net, self.encryption_key@),
        )
        &&& post.commitment == self.commitment
        &&& post.encryption_key == self.encryption_key
        &&& post.nonce == self.nonce
        &&& post.total_deposits == self.total_deposits + net
        &&& post.total_withdrawals == self.total_withdrawals
        &&& post.last_update == slot
    }

    /// Whether `post` is this account after `amount` was unshielded from it
    /// at `slot`.
    pub open spec fn debited(&self, amount: u64, slot: u64, post: PrivacyAccount) -> bool {
        &&& post.owner == self.owner
        &&& post.balance == self.balance - amount
        &&& post.encrypted_balance@ == blob_sub(
            self.encrypted_balance@,
            encrypted_amount(amount, self.encryption_key@),
        )
        &&& post.commitment == self.commitment
        &&& post.encryption_key == self.encryption_key
        &&& post.nonce == self.nonce
        &&& post.total_deposits == self.total_deposits
        &&& post.total_withdrawals == self.total_withdrawals + amount
        &&& post.last_update == slot
    }

    /// The untouched account of `owner`, with `encryption_key` for its blob.
    pub fn new(owner: Pubkey, encryption_key: [u8; 32]) -> (r: PrivacyAccount)
        ensures
            r == PrivacyAccount::fresh(owner, encryption_key),
            all_zero(r.encrypted_balance@),
            all_zero(r.commitment@),
    {
        PrivacyAccount {
            owner,
            balance: 0,
            encrypted_balance: [0u8; 64],
            commitment: [0u8; 32],
            encryption_key,
            nonce: 0,
            total_deposits: 0,
            total_withdrawals: 0,
            last_update: 0,
        }
    }

    /// Adds `amount` to the balance, or refuses with `ArithmeticOverflow` and
    /// changes nothing.
    pub fn deposit(&mut self, amount: u64) -> (r: Result<(), ErrorCode>)
        ensures
            old(self).balance + amount <= u64::MAX ==> r is Ok && *final(self) == (PrivacyAccount {
                balance: (old(self).balance + amount) as u64,
                ..*old(self)
            }),
            old(self).balance + amount > u64::MAX ==> r == Err::<(), ErrorCode>(
                ErrorCode::ArithmeticOverflow,
            ) && *final(self) == *old(self),
    {
        match self.balance.checked_add(amount) {
            Some(balance) => {
                self.balance = balance;
                Ok(())
            },
            None => Err(ErrorCode::ArithmeticOverflow),
        }
    }

    /// Takes `amount` from the balance, or refuses with `InsufficientBalance`
    /// and changes nothing where the account holds less.
    pub fn withdraw(&mut self, amount: u64) -> (r: Result<(), ErrorCode>)
        ensures
            amount <= old(self).balance ==> r is Ok && *final(self) == (PrivacyAccount {
                balance: (old(self).balance - amount) as u64,
                ..*old(self)
            }),
            amount > old(self).balance ==> r == Err::<(), ErrorCode>(
                ErrorCode::InsufficientBalance,
            ) && *final(self) == *old(self),
    {
        if amount > self.balance {
            return Err(ErrorCode::InsufficientBalance);
        }
        self.balance = self.balance - amount;
        Ok(())
    }
}

impl Default for PrivacyAccount {
    /// The untouched account of nobody.
    fn default() -> (r: PrivacyAccount)
        ensures
            r == PrivacyAccount::fresh(Pubkey(zero32()), zero32()),
            r.owner.is_unset(),
    {
        PrivacyAccount::new(Pubkey::default(), [0u8; 32])
    }
}

} // verus!
