//! Setting up a pool and its two registries.

use vstd::prelude::*;
use crate::bytes::zero32;
use crate::error::ErrorCode;
use crate::fee::MAX_FEE_BPS;
use crate::state::commitment_registry::CommitmentRegistry;
use crate::state::nullifier_registry::NullifierRegistry;
use crate::state::pool::PrivacyPool;
use crate::state::pubkey::Pubkey;

verus! {

/// What setting up a pool works on: the three records to fill, and what is
/// known of the pool before it exists.
#[derive(Clone, Debug, PartialEq, Eq)]
pub struct InitializePool {
    /// The pool's record.
    pub pool: PrivacyPool,
    /// The pool's address.
    pub pool_key: Pubkey,
    /// The record of the pool's commitment registry.
    pub commitment_registry: CommitmentRegistry,
    /// The record of the pool's nullifier registry.
    pub nullifier_registry: NullifierRegistry,
    /// Who sets the pool up, and administers it from then on.
    pub admin: Pubkey,
    /// The bump of the vault's address.
    pub vault_bump: u8,
    /// The bump of the commitment registry's address.
    pub commitment_bump: u8,
    /// The bump of the nullifier registry's address.
    pub nullifier_bump: u8,
}

impl InitializePool {
    /// Blank records for the pool at `pool_key`, to be set up by `admin`.
    pub fn new(
        admin: Pubkey,
        pool_key: Pubkey,
        vault_bump: u8,
        commitment_bump: u8,
        nullifier_bump: u8,
    ) -> (r: InitializePool)
        ensures
            r.admin == admin,
            r.pool_key == pool_key,
            r.vault_bump == vault_bump,
            r.commitment_bump == commitment_bump,
            r.nullifier_bump == nullifier_bump,
            r.pool == (PrivacyPool {
                admin: Pubkey(zero32()),
                vault_bump: 0,
                commitment_bump: 0,
                nullifier_bump: 0,
                paused: false,
                fee_bps: 0,
                total_locked: 0,
            }),
            r.commitment_registry.pool == Pubkey(zero32()),
            r.commitment_registry.count == 0,
            r.nullifier_registry.pool == Pubkey(zero32()),
            r.nullifier_registry.count == 0,
    {
        let nobody = Pubkey::default();
        InitializePool {
            pool: PrivacyPool {
                admin: nobody,
                vault_bump: 0,
                commitment_bump: 0,
                nullifier_bump: 0,
                paused: false,
                fee_bps: 0,
                total_locked: 0,
            },
            pool_key,
            commitment_registry: CommitmentRegistry::new(nobody),
            nullifier_registry: NullifierRegistry::new(nobody),
            admin,
            vault_bump,
            commitment_bump,
            nullifier_bump,
        }
    }

    /// The pool as it is set up with a fee of `fee_bps` basis points:
    /// active, holding nothing, administered by whoever set it up.
    pub open spec fn pool_at_start(&self, fee_bps: u16) -> PrivacyPool {
        PrivacyPool {
            admin: self.admin,
            vault_bump: self.vault_bump,
            commitment_bump: self.commitment_bump,
            nullifier_bump: self.nullifier_bump,
            paused: false,
            fee_bps,
            total_locked: 0,
        }
    }
}

/// Sets up a pool with a fee of `fee_bps` basis points: the pool starts
/// active and holds nothing, and both registries start empty and bound to
/// it. A fee of more than 10000 basis points is refused with `FeeTooHigh`,
/// and then nothing changes.
pub fn initialize_pool(ctx: &mut InitializePool, fee_bps: u16) -> (r: Result<(), ErrorCode>)
    ensures
        fee_bps > MAX_FEE_BPS ==> r == Err::<(), ErrorCode>(ErrorCode::FeeTooHigh) && *final(ctx)
            == *old(ctx),
        fee_bps <= MAX_FEE_BPS ==> {
            &&& r is Ok
            &&& final(ctx).pool == old(ctx).pool_at_start(fee_bps)
            &&& final(ctx).pool.wf()
            &&& final(ctx).pool.total_locked == 0
            &&& !final(ctx).pool.paused
            &&& final(ctx).commitment_registry.pool == old(ctx).pool_key
            &&& final(ctx).commitment_registry.count == 0
            &&& final(ctx).commitment_registry.commitments == old(ctx).commitment_registry.commitments
            &&& final(ctx).commitment_registry.wf()
            &&& final(ctx).commitment_registry.entries().len() == 0
            &&& final(ctx).nullifier_registry.pool == old(ctx).pool_key
            &&& final(ctx).nullifier_registry.count == 0
            &&& final(ctx).nullifier_registry.nullifiers == old(ctx).nullifier_registry.nullifiers
            &&& final(ctx).nullifier_registry.wf()
            &&& final(ctx).nullifier_registry.entries().len() == 0
            &&& final(ctx).pool_key == old(ctx).pool_key
            &&& final(ctx).admin == old(ctx).admin
            &&& final(ctx).vault_bump == old(ctx).vault_bump
            &&& final(ctx).commitment_bump == old(ctx).commitment_bump
            &&& final(ctx).nullifier_bump == old(ctx).nullifier_bump
        },
{
    if fee_bps > MAX_FEE_BPS {
        return Err(ErrorCode::FeeTooHigh);
    }
    ctx.pool.admin = ctx.admin;
    ctx.pool.vault_bump = ctx.vault_bump;
    ctx.pool.commitment_bump = ctx.commitment_bump;
    ctx.pool.nullifier_bump = ctx.nullifier_bump;
    ctx.pool.paused = false;
    ctx.pool.fee_bps = fee_bps;
    ctx.pool.total_locked = 0;
    ctx.commitment_registry.pool = ctx.pool_key;
    ctx.commitment_registry.count = 0;
    ctx.nullifier_registry.pool = ctx.pool_key;
    ctx.nullifier_registry.count = 0;
    Ok(())
}

} // verus!
