//! Setting up a pool that keeps no registries, at the default fee.

use vstd::prelude::*;
use crate::state::pool::PrivacyPool;
use crate::state::pubkey::Pubkey;

verus! {

/// The fee that such a pool starts with, in basis points.
pub const DEFAULT_FEE_BPS: u16 = 10;

/// What setting up such a pool works on.
#[derive(Clone, Copy, Debug, PartialEq, Eq)]
pub struct Initialize {
    /// The pool's record.
    pub pool: PrivacyPool,
    /// Who sets the pool up, and administers it from then on.
    pub authority: Pubkey,
    /// The bump of the vault's address.
    pub vault_bump: u8,
}

/// Sets the pool up: active, holding nothing, at the default fee,
/// administered by whoever set it up. Whatever the record held before is
/// gone.
pub fn initialize(ctx: &mut Initialize)
    ensures
        final(ctx).pool == (PrivacyPool {
            admin: old(ctx).authority,
            vault_bump: old(ctx).vault_bump,
            commitment_bump: 0,
            nullifier_bump: 0,
            paused: false,
            fee_bps: DEFAULT_FEE_BPS,
            total_locked: 0,
        }),
        final(ctx).pool.wf(),
        final(ctx).authority == old(ctx).authority,
        final(ctx).vault_bump == old(ctx).vault_bump,
{
    ctx.pool = PrivacyPool {
        admin: ctx.authority,
        vault_bump: ctx.vault_bump,
        commitment_bump: 0,
        nullifier_bump: 0,
        paused: false,
        fee_bps: DEFAULT_FEE_BPS,
        total_locked: 0,
    };
}

} // verus!
