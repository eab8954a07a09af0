//! The pool's stand-in cryptography: proof screening, hash commitments, and
//! the balance-blob algebra. None of it hides or proves anything; it fixes
//! the interfaces that a real backend has to fill.

use vstd::prelude::*;
use crate::bytes::{
    all_zero, append_bytes, is_all_zero, lemma_u64_le_round_trip, u64_from_le,
    u64_from_le_bytes, u64_le_bytes, u64_to_le,
};
use crate::error::ErrorCode;
use crate::state::pubkey::Pubkey;

verus! {

/// The shortest proof that is looked at.
pub const MIN_PROOF_LEN: usize = 32;

/// The digest that `solana_program::hash::hash` gives for `data`.
pub uninterp spec fn solana_hash(data: Seq<u8>) -> Seq<u8>;

/// `solana_program::hash::hash`, followed by `Hash::to_bytes`. Trusted: the
/// 32 bytes returned are the program library's digest of `data`, which
/// depends on the bytes of `data` alone.
#[verifier::external_body]
fn hash_bytes(data: &[u8]) -> (r: [u8; 32])
    ensures
        r@ == solana_hash(data@),
{
    solana_program::hash::hash(data).to_bytes()
}

/// The bytes of the text `psol:proof:v1`, which open every proof transcript.
pub open spec fn proof_tag() -> Seq<u8> {
    seq![
        112u8, 115u8, 111u8, 108u8, 58u8, 112u8, 114u8, 111u8, 111u8, 102u8, 58u8, 118u8, 49u8,
    ]
}

/// The public inputs, one after the other.
pub open spec fn flatten(inputs: Seq<[u8; 32]>) -> Seq<u8>
    decreases inputs.len(),
{
    if inputs.len() == 0 {
        Seq::<u8>::empty()
    } else {
        flatten(inputs.drop_last()) + inputs.last()@
    }
}

/// What a proof is bound to: the tag, the proof, and the public inputs.
pub open spec fn proof_transcript(proof: Seq<u8>, inputs: Seq<[u8; 32]>) -> Seq<u8> {
    proof_tag() + proof + flatten(inputs)
}

/// Whether a proof gets past the screening: it has at least `MIN_PROOF_LEN`
/// bytes, not all of them zero, and it speaks of at least one public input.
pub open spec fn proof_admissible(proof: Seq<u8>, inputs: Seq<[u8; 32]>) -> bool {
    &&& proof.len() >= MIN_PROOF_LEN
    &&& !all_zero(proof)
    &&& inputs.len() > 0
}

/// Screens `proof` and binds it to its public inputs: the digest of the
/// transcript for a proof that gets past the screening, nothing for any other.
pub fn bind_proof(proof: &[u8], public_inputs: &[[u8; 32]]) -> (r: Option<[u8; 32]>)
    ensures
        r is Some <==> proof_admissible(proof@, public_inputs@),
        r matches Some(d) ==> d@ == solana_hash(proof_transcript(proof@, public_inputs@)),
{
    if proof.len() < MIN_PROOF_LEN || public_inputs.len() == 0 || is_all_zero(proof) {
        return None;
    }
    let tag: [u8; 13] = [112, 115, 111, 108, 58, 112, 114, 111, 111, 102, 58, 118, 49];
    let mut data: Vec<u8> = Vec::new();
    append_bytes(&mut data, &tag);
    append_bytes(&mut data, proof);
    assert(data@ =~= proof_tag() + proof@);
    let mut i: usize = 0;
    assert(public_inputs@.take(0) =~= Seq::<[u8; 32]>::empty());
    while i < public_inputs.len()
        invariant
            i <= public_inputs.len(),
            data@ == proof_tag() + proof@ + flatten(public_inputs@.take(i as int)),
        decreases public_inputs.len() - i,
    {
        append_bytes(&mut data, &public_inputs[i]);
        proof {
            let next = public_inputs@.take(i + 1);
            assert(next.drop_last() =~= public_inputs@.take(i as int));
            assert(next.last() == public_inputs@[i as int]);
        }
        i += 1;
    }
    assert(public_inputs@.take(i as int) =~= public_inputs@);
    Some(hash_bytes(&data))
}

/// Decides whether `proof` is taken as a proof about `public_inputs`.
/// Anything short, empty or blank is turned down, and so is a proof about
/// nothing.
pub fn verify_proof(proof: &[u8], public_inputs: &[[u8; 32]]) -> (r: bool)
    ensures
        r == proof_admissible(proof@, public_inputs@),
        proof@.len() == 0 ==> !r,
        all_zero(proof@) ==> !r,
        public_inputs@.len() == 0 ==> !r,
{
    bind_proof(proof, public_inputs).is_some()
}

/// Decides whether `proof` covers a transfer from the account committed to
/// by `sender_commitment` to the one committed to by `recipient_commitment`.
/// The balances are not consulted.
pub fn verify_transfer_proof(
    _sender_balance: &[u8; 64],
    _encrypted_amount: &[u8; 64],
    sender_commitment: &[u8; 32],
    recipient_commitment: &[u8; 32],
    proof: &[u8],
) -> (r: bool)
    ensures
        r == proof_admissible(proof@, seq![*sender_commitment, *recipient_commitment]),
        r == (proof@.len() >= MIN_PROOF_LEN && !all_zero(proof@)),
{
    let inputs: [[u8; 32]; 2] = [*sender_commitment, *recipient_commitment];
    assert(inputs@ =~= seq![*sender_commitment, *recipient_commitment]);
    verify_proof(proof, &inputs)
}

/// What is hashed into the commitment to `value` under `blinding`.
pub open spec fn pedersen_preimage(value: u64, blinding: Seq<u8>) -> Seq<u8> {
    u64_le_bytes(value) + blinding
}

/// What is hashed into the nullifier of `commitment` under `secret`.
pub open spec fn nullifier_preimage(commitment: Seq<u8>, secret: Seq<u8>) -> Seq<u8> {
    commitment + secret
}

/// What is hashed into the commitment that a deposit leaves behind.
pub open spec fn deposit_preimage(owner: Seq<u8>, amount: u64, nonce: u64) -> Seq<u8> {
    owner + u64_le_bytes(amount) + u64_le_bytes(nonce)
}

/// The commitment to `value` under `blinding`.
pub fn pedersen_commit(value: u64, blinding: &[u8; 32]) -> (r: [u8; 32])
    ensures
        r@ == solana_hash(pedersen_preimage(value, blinding@)),
{
    let mut data: Vec<u8> = Vec::new();
    let le = u64_to_le(value);
    append_bytes(&mut data, &le);
    append_bytes(&mut data, blinding);
    assert(data@ =~= pedersen_preimage(value, blinding@));
    hash_bytes(&data)
}

/// The nullifier that spends `commitment` under `secret`.
pub fn generate_nullifier(commitment: &[u8; 32], secret: &[u8; 32]) -> (r: [u8; 32])
    ensures
        r@ == solana_hash(nullifier_preimage(commitment@, secret@)),
{
    let mut data: Vec<u8> = Vec::new();
    append_bytes(&mut data, commitment);
    append_bytes(&mut data, secret);
    assert(data@ =~= nullifier_preimage(commitment@, secret@));
    hash_bytes(&data)
}

/// The commitment that a deposit of `amount` by `owner` at `nonce` leaves in
/// the registry.
pub fn commitment(owner: &Pubkey, amount: u64, nonce: u64) -> (r: [u8; 32])
    ensures
        r@ == solana_hash(deposit_preimage(owner@, amount, nonce)),
{
    let mut data: Vec<u8> = Vec::new();
    let amount_le = u64_to_le(amount);
    let nonce_le = u64_to_le(nonce);
    append_bytes(&mut data, &owner.0);
    append_bytes(&mut data, &amount_le);
    append_bytes(&mut data, &nonce_le);
    assert(data@ =~= deposit_preimage(owner@, amount, nonce));
    hash_bytes(&data)
}

/// The nullifier with which `owner` spends `commitment`.
pub fn nullifier(owner: &Pubkey, commitment: &[u8; 32]) -> (r: [u8; 32])
    ensures
        r@ == solana_hash(nullifier_preimage(owner@, commitment@)),
{
    let mut data: Vec<u8> = Vec::new();
    append_bytes(&mut data, &owner.0);
    append_bytes(&mut data, commitment);
    assert(data@ =~= nullifier_preimage(owner@, commitment@));
    hash_bytes(&data)
}

/// The blob that stands for `amount` under `key`: the amount's eight
/// little-endian bytes, each masked with the key's byte at the same place,
/// then 24 zero bytes, then the key.
pub open spec fn encrypted_amount(amount: u64, key: Seq<u8>) -> Seq<u8> {
    Seq::new(
        64,
        |i: int|
            if i < 8 {
                u64_le_bytes(amount)[i] ^ key[i]
            } else if i < 32 {
                0u8
            } else {
                key[i - 32]
            },
    )
}

/// The amount that the first eight bytes of `ciphertext` stand for under
/// `key`.
pub open spec fn decrypted_amount(ciphertext: Seq<u8>, key: Seq<u8>) -> u64 {
    u64_from_le_bytes(Seq::new(8, |i: int| ciphertext[i] ^ key[i]))
}

/// The sum of two balance blobs. The stand-in algebra hides no amounts and
/// adds none: the sum is the left operand.
pub open spec fn blob_add(a: Seq<u8>, b: Seq<u8>) -> Seq<u8> {
    a
}

/// The difference of two balance blobs. The stand-in algebra takes nothing
/// away: the difference is the left operand.
pub open spec fn blob_sub(a: Seq<u8>, b: Seq<u8>) -> Seq<u8> {
    a
}

/// Taking away what was added gives the balance back, whatever the balance
/// and whatever was added.
pub proof fn lemma_sub_undoes_add(balance: Seq<u8>, x: Seq<u8>)
    ensures
        blob_sub(blob_add(balance, x), x) == balance,
{
}

/// What was encrypted under a key is what decrypts under it.
pub proof fn lemma_decrypt_undoes_encrypt(amount: u64, key: Seq<u8>)
    requires
        key.len() == 32,
    ensures
        decrypted_amount(encrypted_amount(amount, key), key) == amount,
{
    let c = encrypted_amount(amount, key);
    let le = u64_le_bytes(amount);
    let back = Seq::new(8, |i: int| c[i] ^ key[i]);
    assert forall|i: int| 0 <= i < 8 implies back[i] == le[i] by {
        let a = le[i];
        let k = key[i];
        assert((a ^ k) ^ k == a) by (bit_vector);
    }
    lemma_u64_le_round_trip(amount);
    assert(back =~= le);
}

/// Encrypts `amount` under `public_key`.
pub fn encrypt_amount(amount: u64, public_key: &[u8; 32]) -> (r: [u8; 64])
    ensures
        r@ == encrypted_amount(amount, public_key@),
{
    let mut encrypted = [0u8; 64];
    let amount_bytes = u64_to_le(amount);
    let mut i: usize = 0;
    while i < 8
        invariant
            i <= 8,
            amount_bytes@ == u64_le_bytes(amount),
            forall|j: int| 0 <= j < i ==> encrypted@[j] == amount_bytes@[j] ^ public_key@[j],
            forall|j: int| i <= j < 64 ==> encrypted@[j] == 0,
        decreases 8 - i,
    {
        encrypted[i] = amount_bytes[i] ^ public_key[i];
        i += 1;
    }
    let mut k: usize = 0;
    while k < 32
        invariant
            k <= 32,
            amount_bytes@ == u64_le_bytes(amount),
            forall|j: int| 0 <= j < 8 ==> encrypted@[j] == amount_bytes@[j] ^ public_key@[j],
            forall|j: int| 8 <= j < 32 ==> encrypted@[j] == 0,
            forall|j: int| 32 <= j < 32 + k ==> encrypted@[j] == public_key@[j - 32],
        decreases 32 - k,
    {
        encrypted[32 + k] = public_key[k];
        k += 1;
    }
    assert(encrypted@ =~= encrypted_amount(amount, public_key@));
    encrypted
}

/// Decrypts the amount at the head of `ciphertext` under `secret_key`.
pub fn decrypt_amount(ciphertext: &[u8; 64], secret_key: &[u8; 32]) -> (r: Result<u64, ErrorCode>)
    ensures
        r == Ok::<u64, ErrorCode>(decrypted_amount(ciphertext@, secret_key@)),
{
    let mut amount_bytes = [0u8; 8];
    let mut i: usize = 0;
    while i < 8
        invariant
            i <= 8,
            forall|j: int| 0 <= j < i ==> amount_bytes@[j] == ciphertext@[j] ^ secret_key@[j],
        decreases 8 - i,
    {
        amount_bytes[i] = ciphertext[i] ^ secret_key[i];
        i += 1;
    }
    assert(amount_bytes@ =~= Seq::new(8, |i: int| ciphertext@[i] ^ secret_key@[i]));
    Ok(u64_from_le(&amount_bytes))
}

/// Adds the blob `_b` to the blob `a`.
pub fn homomorphic_add(a: &[u8; 64], _b: &[u8; 64]) -> (r: [u8; 64])
    ensures
        r@ == blob_add(a@, _b@),
{
    *a
}

/// Takes the blob `_b` from the blob `a`.
pub fn homomorphic_sub(a: &[u8; 64], _b: &[u8; 64]) -> (r: [u8; 64])
    ensures
        r@ == blob_sub(a@, _b@),
{
    *a
}

/// Adds two balance blobs; there is no pair of blobs for which this fails.
pub fn add_encrypted(a: &[u8; 64], b: &[u8; 64]) -> (r: Result<[u8; 64], ErrorCode>)
    ensures
        r matches Ok(sum) && sum@ == blob_add(a@, b@),
{
    Ok(homomorphic_add(a, b))
}

/// Takes one balance blob from another; there is no pair of blobs for which
/// this fails.
pub fn subtract_encrypted(a: &[u8; 64], b: &[u8; 64]) -> (r: Result<[u8; 64], ErrorCode>)
    ensures
        r matches Ok(difference) && difference@ == blob_sub(a@, b@),
{
    Ok(homomorphic_sub(a, b))
}

} // verus!
