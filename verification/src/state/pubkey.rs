//! Identities: the 32-byte keys under which admins, owners and pools are known.

use vstd::prelude::*;
use vstd::std_specs::cmp::PartialEqSpecImpl;
use crate::bytes::{all_zero, bytes_equal, is_all_zero, zero32};

verus! {

/// A 32-byte public key.
#[derive(Clone, Copy, Debug, Eq, Hash)]
pub struct Pubkey(pub [u8; 32]);

impl View for Pubkey {
    type V = Seq<u8>;

    open spec fn view(&self) -> Seq<u8> {
        self.0@
    }
}

impl PartialEq for Pubkey {
    fn eq(&self, other: &Pubkey) -> (r: bool) {
        bytes_equal(&self.0, &other.0)
    }
}

impl PartialEqSpecImpl for Pubkey {
    open spec fn obeys_eq_spec() -> bool {
        true
    }

    open spec fn eq_spec(&self, other: &Pubkey) -> bool {
        self.0@ == other.0@
    }
}

impl Default for Pubkey {
    /// The key of thirty-two zero bytes, which no owner has.
    fn default() -> (r: Pubkey)
        ensures
            r == Pubkey(zero32()),
            r.is_unset(),
    {
        Pubkey([0u8; 32])
    }
}

impl Pubkey {
    /// Whether this is the all-zero key, which stands for "nobody yet".
    pub open spec fn is_unset(&self) -> bool {
        all_zero(self@)
    }

    /// The key with the given bytes.
    pub fn new(bytes: [u8; 32]) -> (r: Pubkey)
        ensures
            r == Pubkey(bytes),
            r@ == bytes@,
    {
        Pubkey(bytes)
    }

    /// The key's bytes.
    pub fn to_bytes(&self) -> (r: [u8; 32])
        ensures
            r == self.0,
            r@ == self@,
    {
        self.0
    }

    /// Whether this is the all-zero key.
    pub fn is_default(&self) -> (r: bool)
        ensures
            r == self.is_unset(),
    {
        is_all_zero(&self.0)
    }
}

/// Two keys with the same bytes are the same key.
pub proof fn lemma_pubkey_ext(a: Pubkey, b: Pubkey)
    requires
        a@ == b@,
    ensures
        a == b,
{
    assert(a.0 =~= b.0);
}

} // verus!
