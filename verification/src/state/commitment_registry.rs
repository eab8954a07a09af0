//! The pool's log of value commitments: bounded and append-only.

use vstd::prelude::*;
use crate::error::ErrorCode;
use crate::state::pubkey::Pubkey;

verus! {

/// How many commitments a registry holds at most.
pub const MAX_COMMITMENTS: usize = 1024;

/// The commitments made in one pool, oldest first. Only the first `count`
/// slots are in use; nothing is ever taken out or overwritten.
#[derive(Clone, Debug, PartialEq, Eq)]
pub struct CommitmentRegistry {
    /// The pool that the registry belongs to.
    pub pool: Pubkey,
    /// How many slots are in use.
    pub count: u64,
    /// The slots.
    pub commitments: [[u8; 32]; 1024],
}

impl CommitmentRegistry {
    /// The bytes that a registry takes up where it is kept: a tag of eight
    /// bytes, the pool, the count, and the slots.
    pub const SIZE: usize = 8 + 32 + 8 + (32 * 1024);

    /// No more slots are counted as used than there are.
    pub open spec fn wf(&self) -> bool {
        self.count <= MAX_COMMITMENTS
    }

    /// How many commitments are held.
    pub open spec fn len(&self) -> nat {
        if self.count <= MAX_COMMITMENTS {
            self.count as nat
        } else {
            MAX_COMMITMENTS as nat
        }
    }

    /// The commitments held, oldest first.
    pub open spec fn entries(&self) -> Seq<[u8; 32]> {
        self.commitments@.take(self.len() as int)
    }

    /// Why an `add_commitment` on behalf of `pool` is refused, if it is.
    pub open spec fn add_refusal(&self, pool: Pubkey) -> Option<ErrorCode> {
        if self.pool@ != pool@ {
            Some(ErrorCode::InvalidRegistry)
        } else if self.count >= MAX_COMMITMENTS {
            Some(ErrorCode::RegistryFull)
        } else {
            None
        }
    }

    /// Whether `post` is what `add_commitment(pool, commitment)` makes of
    /// `self`: the same registry where the call is refused, and otherwise the
    /// registry with `commitment` in the next free slot.
    pub open spec fn add_gives(
        &self,
        pool: Pubkey,
        commitment: [u8; 32],
        post: CommitmentRegistry,
    ) -> bool {
        match self.add_refusal(pool) {
            Some(_) => post == *self,
            None => {
                &&& post.pool == self.pool
                &&& post.count == self.count + 1
                &&& post.commitments@ == self.commitments@.update(self.count as int, commitment)
            },
        }
    }

    /// An empty registry for `pool`.
    pub fn new(pool: Pubkey) -> (r: CommitmentRegistry)
        ensures
            r.wf(),
            r.pool == pool,
            r.count == 0,
            r.entries() == Seq::<[u8; 32]>::empty(),
    {
        CommitmentRegistry { pool, count: 0, commitments: [[0u8; 32]; 1024] }
    }

    /// Whether the registry is bound to another pool, or cannot take one more
    /// commitment.
    pub fn check_room(&self, pool: &Pubkey) -> (r: Result<(), ErrorCode>)
        ensures
            match self.add_refusal(*pool) {
                Some(e) => r == Err::<(), ErrorCode>(e),
                None => r is Ok,
            },
    {
        if self.pool != *pool {
            return Err(ErrorCode::InvalidRegistry);
        }
        if self.count >= MAX_COMMITMENTS as u64 {
            return Err(ErrorCode::RegistryFull);
        }
        Ok(())
    }

    /// Appends `commitment` on behalf of `pool`. A registry bound to another
    /// pool refuses with `InvalidRegistry`, a full one with `RegistryFull`;
    /// a refusal changes nothing.
    pub fn add_commitment(&mut self, pool: &Pubkey, commitment: [u8; 32]) -> (r: Result<
        (),
        ErrorCode,
    >)
        ensures
            match old(self).add_refusal(*pool) {
                Some(e) => r == Err::<(), ErrorCode>(e) && *final(self) == *old(self),
                None => r is Ok && final(self).entries() == old(self).entries().push(commitment),
            },
            old(self).add_gives(*pool, commitment, *final(self)),
            old(self).wf() ==> final(self).wf(),
    {
        match self.check_room(pool) {
            Err(e) => {
                return Err(e);
            },
            Ok(_) => {},
        }
        let next = match self.count.checked_add(1) {
            Some(next) => next,
            None => {
                return Err(ErrorCode::ArithmeticOverflow);
            },
        };
        let at = self.count as usize;
        self.commitments[at] = commitment;
        self.count = next;
        assert(self.entries() =~= old(self).entries().push(commitment));
        Ok(())
    }
}

/// Whatever calls of `add_commitment` a registry goes through, it never
/// counts more commitments than it has room for, and what it held before it
/// still holds, in the same places.
pub proof fn lemma_registry_stays_within_capacity(
    history: Seq<CommitmentRegistry>,
    pools: Seq<Pubkey>,
    commitments: Seq<[u8; 32]>,
)
    requires
        history.len() == pools.len() + 1,
        pools.len() == commitments.len(),
        history[0].wf(),
        forall|i: int|
            0 <= i < pools.len() ==> (#[trigger] history[i]).add_gives(
                pools[i],
                commitments[i],
                history[i + 1],
            ),
    ensures
        forall|i: int| 0 <= i < history.len() ==> (#[trigger] history[i]).count <= MAX_COMMITMENTS,
        forall|i: int|
            0 <= i < history.len() ==> history[0].entries().is_prefix_of(
                (#[trigger] history[i]).entries(),
            ),
    decreases history.len(),
{
    if pools.len() > 0 {
        let n = pools.len() as int;
        lemma_registry_stays_within_capacity(
            history.drop_last(),
            pools.drop_last(),
            commitments.drop_last(),
        );
        let pre = history[n - 1];
        let post = history[n];
        assert(history.drop_last()[n - 1] == pre);
        assert(pre.add_gives(pools[n - 1], commitments[n - 1], post));
        assert(pre.entries().is_prefix_of(post.entries()));
        assert forall|i: int| 0 <= i < history.len() implies (#[trigger] history[i]).count
            <= MAX_COMMITMENTS && history[0].entries().is_prefix_of(history[i].entries()) by {
            if i < n {
                assert(history.drop_last()[i] == history[i]);
            }
        }
    }
}

} // verus!
