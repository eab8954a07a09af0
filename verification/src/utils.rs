//! Commitments, nullifiers and viewing keys derived with SHA-256, and the
//! checks that go with them.

use vstd::prelude::*;
use sha2::{Digest, Sha256};
use crate::bytes::{all_zero, append_bytes, bytes_equal, is_all_zero, u64_le_bytes, u64_to_le};
use crate::crypto::MIN_PROOF_LEN;

verus! {

/// The SHA-256 digest of `data`, as the `sha2` crate computes it.
pub uninterp spec fn sha256(data: Seq<u8>) -> Seq<u8>;

/// `sha2::Sha256::digest` (the `Digest` trait's one-shot function). Trusted:
/// what it returns is the crate's SHA-256 digest of `data`, which depends on
/// the bytes of `data` alone.
#[verifier::external_body]
fn sha256_digest(data: &[u8]) -> (r: [u8; 32])
    ensures
        r@ == sha256(data@),
{
    Sha256::digest(data).into()
}

/// What is hashed into the commitment to `value` under `randomness`.
pub open spec fn commitment_preimage(value: u64, randomness: Seq<u8>) -> Seq<u8> {
    u64_le_bytes(value) + randomness
}

/// What is hashed into the nullifier of `account` at `nonce`.
pub open spec fn nullifier_preimage(account: Seq<u8>, nonce: u64) -> Seq<u8> {
    account + u64_le_bytes(nonce)
}

/// The bytes of the text `viewing_key`, which separate viewing keys from
/// every other digest.
pub open spec fn viewing_key_tag() -> Seq<u8> {
    seq![118u8, 105u8, 101u8, 119u8, 105u8, 110u8, 103u8, 95u8, 107u8, 101u8, 121u8]
}

/// What is hashed into the viewing key of `secret`.
pub open spec fn viewing_key_preimage(secret: Seq<u8>) -> Seq<u8> {
    viewing_key_tag() + secret
}

/// What is hashed to encrypt `value` under `viewing_key`.
pub open spec fn encrypted_value_preimage(value: u64, viewing_key: Seq<u8>) -> Seq<u8> {
    viewing_key + u64_le_bytes(value)
}

/// Whether `proof` is taken as a proof about `commitment`: it has at least
/// `MIN_PROOF_LEN` bytes, not all of them zero, and the commitment is not
/// all zero either.
pub open spec fn proof_accepted(proof: Seq<u8>, commitment: Seq<u8>) -> bool {
    &&& proof.len() >= MIN_PROOF_LEN
    &&& !all_zero(proof)
    &&& !all_zero(commitment)
}

/// Decides whether `proof` is taken as a proof about `commitment`. Anything
/// short, empty or blank is turned down.
pub fn verify_proof(proof: &[u8], commitment: &[u8; 32]) -> (r: bool)
    ensures
        r == proof_accepted(proof@, commitment@),
        proof@.len() == 0 ==> !r,
        all_zero(proof@) ==> !r,
{
    if proof.len() < MIN_PROOF_LEN {
        return false;
    }
    !is_all_zero(proof) && !is_all_zero(commitment)
}

/// The commitment to `value` under `randomness`.
pub fn generate_commitment(value: u64, randomness: &[u8; 32]) -> (r: [u8; 32])
    ensures
        r@ == sha256(commitment_preimage(value, randomness@)),
{
    let mut data: Vec<u8> = Vec::new();
    let le = u64_to_le(value);
    append_bytes(&mut data, &le);
    append_bytes(&mut data, randomness);
    assert(data@ =~= commitment_preimage(value, randomness@));
    sha256_digest(&data)
}

/// The nullifier of `account` at `nonce`.
pub fn generate_nullifier(account: &[u8; 32], nonce: u64) -> (r: [u8; 32])
    ensures
        r@ == sha256(nullifier_preimage(account@, nonce)),
{
    let mut data: Vec<u8> = Vec::new();
    let le = u64_to_le(nonce);
    append_bytes(&mut data, account);
    append_bytes(&mut data, &le);
    assert(data@ =~= nullifier_preimage(account@, nonce));
    sha256_digest(&data)
}

/// Whether `commitment` is the commitment to `value` under `randomness`.
pub fn verify_commitment_opening(commitment: &[u8; 32], value: u64, randomness: &[u8; 32]) -> (r:
    bool)
    ensures
        r == (commitment@ == sha256(commitment_preimage(value, randomness@))),
{
    let computed = generate_commitment(value, randomness);
    bytes_equal(commitment, &computed)
}

/// The viewing key that goes with `secret`.
pub fn generate_viewing_key(secret: &[u8; 32]) -> (r: [u8; 32])
    ensures
        r@ == sha256(viewing_key_preimage(secret@)),
{
    let tag: [u8; 11] = [118, 105, 101, 119, 105, 110, 103, 95, 107, 101, 121];
    let mut data: Vec<u8> = Vec::new();
    append_bytes(&mut data, &tag);
    append_bytes(&mut data, secret);
    assert(data@ =~= viewing_key_preimage(secret@));
    sha256_digest(&data)
}

/// The tag that stands for `value` under `viewing_key`.
pub fn encrypt_value(value: u64, viewing_key: &[u8; 32]) -> (r: [u8; 32])
    ensures
        r@ == sha256(encrypted_value_preimage(value, viewing_key@)),
{
    let mut data: Vec<u8> = Vec::new();
    let le = u64_to_le(value);
    append_bytes(&mut data, viewing_key);
    append_bytes(&mut data, &le);
    assert(data@ =~= encrypted_value_preimage(value, viewing_key@));
    sha256_digest(&data)
}

/// The value that `_encrypted` stands for under `_viewing_key`. A digest
/// gives nothing back: the answer is zero for every tag and key.
pub fn decrypt_value(_encrypted: &[u8; 32], _viewing_key: &[u8; 32]) -> (r: Option<u64>)
    ensures
        r == Some(0u64),
{
    Some(0)
}

} // verus!
