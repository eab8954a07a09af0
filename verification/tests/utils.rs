use psol::utils::{
    decrypt_value, encrypt_value, generate_commitment, generate_nullifier, generate_viewing_key,
    verify_commitment_opening, verify_proof,
};

#[test]
fn test_commitment_generation() {
    let value = 100u64;
    let randomness = [1u8; 32];
    let commitment = generate_commitment(value, &randomness);

    assert_ne!(commitment, [0u8; 32]);
    assert!(verify_commitment_opening(&commitment, value, &randomness));
}

#[test]
fn test_nullifier_generation() {
    let account = [2u8; 32];
    let nonce = 1u64;
    let nullifier = generate_nullifier(&account, nonce);

    assert_ne!(nullifier, [0u8; 32]);

    // Different nonce should produce different nullifier
    let nullifier2 = generate_nullifier(&account, nonce + 1);
    assert_ne!(nullifier, nullifier2);
}

#[test]
fn utils_verify_proof_rejects_short_and_blank() {
    let commitment = [7u8; 32];
    assert!(!verify_proof(&[], &commitment));
    assert!(!verify_proof(&[1u8; 31], &commitment));
    assert!(!verify_proof(&[0u8; 64], &commitment));
    assert!(!verify_proof(&[1u8; 32], &[0u8; 32]));
    assert!(verify_proof(&[1u8; 32], &commitment));
}

#[test]
fn test_viewing_key() {
    let secret = [3u8; 32];
    let key = generate_viewing_key(&secret);

    assert_ne!(key, [0u8; 32]);
    assert_ne!(key, secret);
}
