//! The pool's log of consumed nullifiers: each spend authorisation enters it
//! once and can never enter it again.

use vstd::prelude::*;
use crate::bytes::digests_equal;
use crate::error::ErrorCode;
use crate::state::pubkey::Pubkey;

verus! {

/// How many nullifiers a registry holds at most.
pub const MAX_NULLIFIERS: usize = 1024;

/// The nullifiers consumed in one pool, oldest first. Only the first `count`
/// slots are in use; nothing is ever taken out or overwritten.
#[derive(Clone, Debug, PartialEq, Eq)]
pub struct NullifierRegistry {
    /// The pool that the registry belongs to.
    pub pool: Pubkey,
    /// How many slots are in use.
    pub count: u64,
    /// The slots.
    pub nullifiers: [[u8; 32]; 1024],
}

/// The record that marks one nullifier as consumed, where each nullifier has
/// a record of its own, found by the nullifier's value.
#[derive(Clone, Copy, Debug, PartialEq, Eq)]
pub struct NullifierSet {
    /// The pool in which the nullifier was consumed.
    pub pool: Pubkey,
    /// The nullifier.
    pub nullifier: [u8; 32],
    /// When it was consumed.
    pub slot: u64,
    /// The bump of the record's address.
    pub bump: u8,
}

impl NullifierSet {
    /// The bytes that a record takes up where it is kept.
    pub const SIZE: usize = 8 + 32 + 32 + 8 + 1;
}

impl NullifierRegistry {
    /// The bytes that a registry takes up where it is kept: a tag of eight
    /// bytes, the pool, the count, and the slots.
    pub const SIZE: usize = 8 + 32 + 8 + (32 * 1024);

    /// No more slots are counted as used than there are, and no nullifier is
    /// held twice.
    pub open spec fn wf(&self) -> bool {
        &&& self.count <= MAX_NULLIFIERS
        &&& self.entries().no_duplicates()
    }

    /// How many nullifiers are held.
    pub open spec fn len(&self) -> nat {
        if self.count <= MAX_NULLIFIERS {
            self.count as nat
        } else {
            MAX_NULLIFIERS as nat
        }
    }

    /// The nullifiers held, oldest first.
    pub open spec fn entries(&self) -> Seq<[u8; 32]> {
        self.nullifiers@.take(self.len() as int)
    }

    /// Whether `nullifier` has been consumed.
    pub open spec fn is_used(&self, nullifier: [u8; 32]) -> bool {
        self.entries().contains(nullifier)
    }

    /// Why a `register` of `nullifier` on behalf of `pool` is refused, if it
    /// is.
    pub open spec fn register_refusal(&self, pool: Pubkey, nullifier: [u8; 32]) -> Option<
        ErrorCode,
    > {
        if self.pool@ != pool@ {
            Some(ErrorCode::InvalidRegistry)
        } else if self.is_used(nullifier) {
            Some(ErrorCode::NullifierAlreadyUsed)
        } else if self.count >= MAX_NULLIFIERS {
            Some(ErrorCode::RegistryFull)
        } else {
            None
        }
    }

    /// Whether `post` is what `register(pool, nullifier)` makes of `self`:
    /// the same registry where the call is refused, and otherwise the
    /// registry with `nullifier` in the next free slot.
    pub open spec fn register_gives(
        &self,
        pool: Pubkey,
        nullifier: [u8; 32],
        post: NullifierRegistry,
    ) -> bool {
        match self.register_refusal(pool, nullifier) {
            Some(_) => post == *self,
            None => {
                &&& post.pool == self.pool
                &&& post.count == self.count + 1
                &&& post.nullifiers@ == self.nullifiers@.update(self.count as int, nullifier)
            },
        }
    }

    /// An empty registry for `pool`.
    pub fn new(pool: Pubkey) -> (r: NullifierRegistry)
        ensures
            r.wf(),
            r.pool == pool,
            r.count == 0,
            r.entries() == Seq::<[u8; 32]>::empty(),
    {
        NullifierRegistry { pool, count: 0, nullifiers: [[0u8; 32]; 1024] }
    }

    /// Whether `nullifier` has been consumed.
    pub fn contains(&self, nullifier: &[u8; 32]) -> (r: bool)
        ensures
            r == self.is_used(*nullifier),
    {
        let used: usize = if self.count >= MAX_NULLIFIERS as u64 {
            MAX_NULLIFIERS
        } else {
            self.count as usize
        };
        let mut i: usize = 0;
        while i < used
            invariant
                i <= used,
                used == self.len(),
                forall|j: int| 0 <= j < i ==> self.nullifiers@[j] != *nullifier,
            decreases used - i,
        {
            if digests_equal(&self.nullifiers[i], nullifier) {
                assert(self.entries()[i as int] == *nullifier);
                return true;
            }
            i += 1;
        }
        false
    }

    /// Whether a `register` of `nullifier` on behalf of `pool` would be
    /// refused, and why.
    pub fn check_unused(&self, pool: &Pubkey, nullifier: &[u8; 32]) -> (r: Result<(), ErrorCode>)
        ensures
            match self.register_refusal(*pool, *nullifier) {
                Some(e) => r == Err::<(), ErrorCode>(e),
                None => r is Ok,
            },
    {
        if self.pool != *pool {
            return Err(ErrorCode::InvalidRegistry);
        }
        if self.contains(nullifier) {
            return Err(ErrorCode::NullifierAlreadyUsed);
        }
        if self.count >= MAX_NULLIFIERS as u64 {
            return Err(ErrorCode::RegistryFull);
        }
        Ok(())
    }

    /// Consumes `nullifier` on behalf of `pool`. A registry bound to another
    /// pool refuses with `InvalidRegistry`, one that holds the nullifier
    /// already with `NullifierAlreadyUsed`, a full one with `RegistryFull`; a
    /// refusal changes nothing.
    pub fn register(&mut self, pool: &Pubkey, nullifier: [u8; 32]) -> (r: Result<(), ErrorCode>)
        ensures
            match old(self).register_refusal(*pool, nullifier) {
                Some(e) => r == Err::<(), ErrorCode>(e) && *final(self) == *old(self),
                None => r is Ok && final(self).entries() == old(self).entries().push(nullifier),
            },
            old(self).register_gives(*pool, nullifier, *final(self)),
            r is Ok ==> final(self).is_used(nullifier),
            old(self).wf() ==> final(self).wf(),
    {
        match self.check_unused(pool, &nullifier) {
            Err(e) => {
                return Err(e);
            },
            Ok(_) => {},
        }
        let next = match self.count.checked_add(1) {
            Some(next) => next,
            None => {
                return Err(ErrorCode::ArithmeticOverflow);
            },
        };
        let at = self.count as usize;
        self.nullifiers[at] = nullifier;
        self.count = next;
        proof {
            lemma_register_appends(*old(self), *pool, nullifier, *self);
        }
        Ok(())
    }
}

/// A registration that goes through appends the nullifier, and a registry
/// that held no nullifier twice before it holds none twice after it.
pub proof fn lemma_register_appends(
    pre: NullifierRegistry,
    pool: Pubkey,
    nullifier: [u8; 32],
    post: NullifierRegistry,
)
    requires
        pre.register_refusal(pool, nullifier) is None,
        pre.register_gives(pool, nullifier, post),
    ensures
        post.entries() == pre.entries().push(nullifier),
        post.is_used(nullifier),
        pre.wf() ==> post.wf(),
{
    let before = pre.entries();
    let after = post.entries();
    assert(after =~= before.push(nullifier));
    assert(after[before.len() as int] == nullifier);
    if pre.wf() {
        assert forall|i: int, j: int| 0 <= i < after.len() && 0 <= j < after.len() && i != j
            implies after[i] != after[j] by {
            if i < before.len() && j < before.len() {
                assert(before[i] != before[j]);
            } else if i < before.len() {
                assert(before.contains(before[i]));
            } else {
                assert(before.contains(before[j]));
            }
        }
    }
}

/// A nullifier is consumed at most once: where a registration went through,
/// a second registration of the same nullifier for the same pool is refused
/// with `NullifierAlreadyUsed`, and changes nothing.
pub proof fn lemma_second_registration_is_refused(
    first: NullifierRegistry,
    pool: Pubkey,
    nullifier: [u8; 32],
    second: NullifierRegistry,
    third: NullifierRegistry,
)
    requires
        first.register_refusal(pool, nullifier) is None,
        first.register_gives(pool, nullifier, second),
        second.register_gives(pool, nullifier, third),
    ensures
        second.register_refusal(pool, nullifier) == Some(ErrorCode::NullifierAlreadyUsed),
        third == second,
{
    lemma_register_appends(first, pool, nullifier, second);
}

/// Whatever calls of `register` a registry goes through, it never counts
/// more nullifiers than it has room for, it never holds one twice, and one
/// that it held before it still holds.
pub proof fn lemma_nullifiers_stay_consumed(
    history: Seq<NullifierRegistry>,
    pools: Seq<Pubkey>,
    nullifiers: Seq<[u8; 32]>,
)
    requires
        history.len() == pools.len() + 1,
        pools.len() == nullifiers.len(),
        history[0].wf(),
        forall|i: int|
            0 <= i < pools.len() ==> (#[trigger] history[i]).register_gives(
                pools[i],
                nullifiers[i],
                history[i + 1],
            ),
    ensures
        forall|i: int| 0 <= i < history.len() ==> (#[trigger] history[i]).wf(),
        forall|i: int, n: [u8; 32]|
            0 <= i < history.len() && history[0].is_used(n) ==> (#[trigger] history[i].is_used(n)),
    decreases history.len(),
{
    if pools.len() > 0 {
        let n = pools.len() as int;
        lemma_nullifiers_stay_consumed(
            history.drop_last(),
            pools.drop_last(),
            nullifiers.drop_last(),
        );
        let pre = history[n - 1];
        let post = history[n];
        assert(history.drop_last()[n - 1] == pre);
        assert(history.drop_last()[0] == history[0]);
        assert(pre.register_gives(pools[n - 1], nullifiers[n - 1], post));
        if pre.register_refusal(pools[n - 1], nullifiers[n - 1]) is None {
            lemma_register_appends(pre, pools[n - 1], nullifiers[n - 1], post);
        }
        assert forall|i: int| 0 <= i < history.len() implies (#[trigger] history[i]).wf() by {
            if i < n {
                assert(history.drop_last()[i] == history[i]);
            }
        }
        assert forall|i: int, x: [u8; 32]|
            0 <= i < history.len() && history[0].is_used(x) implies #[trigger] history[i].is_used(
            x,
        ) by {
            if i < n {
                assert(history.drop_last()[i] == history[i]);
            } else {
                assert(history.drop_last()[n - 1].is_used(x));
                let k = choose|k: int| 0 <= k < pre.entries().len() && pre.entries()[k] == x;
                assert(post.entries()[k] == x);
            }
        }
    }
}

} // verus!
