//! Opening an owner's shielded account.

use vstd::prelude::*;
use crate::state::privacy_account::PrivacyAccount;
use crate::state::pubkey::Pubkey;

verus! {

/// What opening an account works on.
#[derive(Clone, Copy, Debug, PartialEq, Eq)]
pub struct InitPrivacyAccount {
    /// The record to fill.
    pub privacy_account: PrivacyAccount,
    /// Whose account it becomes.
    pub owner: Pubkey,
}

/// Opens the owner's account: it holds nothing, has counted nothing, and
/// keeps `encryption_key` for its balance blob. Whatever the record held
/// before is gone.
pub fn init_privacy_account(ctx: &mut InitPrivacyAccount, encryption_key: [u8; 32])
    ensures
        final(ctx).owner == old(ctx).owner,
        final(ctx).privacy_account == PrivacyAccount::fresh(old(ctx).owner, encryption_key),
        final(ctx).privacy_account.balance == 0,
{
    ctx.privacy_account = PrivacyAccount::new(ctx.owner, encryption_key);
}

} // verus!
