//! Showing an owner what the pool keeps on their account.

use vstd::prelude::*;
use crate::error::ErrorCode;
use crate::state::privacy_account::PrivacyAccount;
use crate::state::pubkey::Pubkey;

verus! {

/// The account's commitment and nonce, for the account's owner; anyone else
/// is refused with `InvalidOwner`.
pub fn reveal_balance(account: &PrivacyAccount, authority: &Pubkey) -> (r: Result<
    ([u8; 32], u64),
    ErrorCode,
>)
    ensures
        r == if account.owner@ == authority@ {
            Ok::<([u8; 32], u64), ErrorCode>((account.commitment, account.nonce))
        } else {
            Err::<([u8; 32], u64), ErrorCode>(ErrorCode::InvalidOwner)
        },
{
    if account.owner != *authority {
        return Err(ErrorCode::InvalidOwner);
    }
    Ok((account.commitment, account.nonce))
}

} // verus!
