//! What the wrapped token keeps: its configuration, the books of its vault,
//! and the link from a holder to a shielded account.

use vstd::prelude::*;
use crate::fee::MAX_FEE_BPS;
use crate::state::pubkey::Pubkey;
use crate::token::error::ErrorCode;

verus! {

/// Which pool, program and mint the token belongs to.
#[derive(Clone, Copy, Debug, PartialEq, Eq)]
pub struct Config {
    /// Who configured the token.
    pub admin: Pubkey,
    /// The program that runs the pool.
    pub psol_program: Pubkey,
    /// The pool.
    pub pool: Pubkey,
    /// The token's mint.
    pub psol_mint: Pubkey,
    /// The bump of the mint authority's address.
    pub mint_authority_bump: u8,
    /// The bump of the configuration's address.
    pub bump: u8,
}

/// The books of the vault that backs the token.
#[derive(Clone, Copy, Debug, PartialEq, Eq)]
pub struct TokenVault {
    /// Who set the vault up.
    pub authority: Pubkey,
    /// The token's mint.
    pub psol_mint: Pubkey,
    /// The address that holds the public value.
    pub sol_vault: Pubkey,
    /// The pool that the vault is linked to.
    pub privacy_pool: Pubkey,
    /// How many tokens exist.
    pub total_supply: u64,
    /// How much public value was taken in and not paid out again.
    pub total_locked: u64,
    /// The fee on each swap, in basis points.
    pub swap_fee_bps: u16,
    /// Whether swaps are paused.
    pub paused: bool,
    /// The bump of the vault's address.
    pub bump: u8,
}

/// The link from a token holder to a shielded account.
#[derive(Clone, Copy, Debug, PartialEq, Eq)]
pub struct TokenPrivacyLink {
    /// The holder; the all-zero key while the link is nobody's.
    pub owner: Pubkey,
    /// The holder's token account.
    pub token_account: Pubkey,
    /// The holder's shielded account; the all-zero key while there is none.
    pub privacy_account: Pubkey,
    /// The holder's balance, as a blob.
    pub encrypted_balance: [u8; 64],
    /// When the link was last brought up to date.
    pub last_sync: u64,
    /// The bump of the link's address.
    pub bump: u8,
}

impl Config {
    /// The bytes that the fields take up where they are kept.
    pub const SPACE: usize = 32 + 32 + 32 + 32 + 1 + 1;

    /// Why the token turns down work for `pool` under `program`, if it does:
    /// the pool is not the configured one, or the program is not.
    pub open spec fn refusal(&self, pool: Pubkey, program: Pubkey) -> Option<ErrorCode> {
        if self.pool@ != pool@ {
            Some(ErrorCode::InvalidPool)
        } else if self.psol_program@ != program@ {
            Some(ErrorCode::InvalidProgram)
        } else {
            None
        }
    }

    /// Checks that `pool` and `program` are the configured ones.
    pub fn check(&self, pool: &Pubkey, program: &Pubkey) -> (r: Result<(), ErrorCode>)
        ensures
            match self.refusal(*pool, *program) {
                Some(e) => r == Err::<(), ErrorCode>(e),
                None => r is Ok,
            },
    {
        if self.pool != *pool {
            return Err(ErrorCode::InvalidPool);
        }
        if self.psol_program != *program {
            return Err(ErrorCode::InvalidProgram);
        }
        Ok(())
    }
}

impl TokenVault {
    /// The bytes that a vault takes up where it is kept: a tag of eight
    /// bytes and the fields.
    pub const SIZE: usize = 8 + 32 + 32 + 32 + 32 + 8 + 8 + 2 + 1 + 1;

    /// Every token is backed: no more tokens exist than value is locked, and
    /// the fee is no more than the whole amount.
    pub open spec fn wf(&self) -> bool {
        &&& self.total_supply <= self.total_locked
        &&& self.swap_fee_bps <= MAX_FEE_BPS
    }
}

impl TokenPrivacyLink {
    /// The bytes that a link takes up where it is kept: a tag of eight bytes
    /// and the fields.
    pub const SIZE: usize = 8 + 32 + 32 + 32 + 64 + 8 + 1;
}

} // verus!
