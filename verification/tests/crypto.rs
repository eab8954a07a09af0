use psol::bytes::{bytes_equal, digests_equal, is_all_zero, u64_from_le, u64_to_le};
use psol::crypto::{
    add_encrypted, decrypt_amount, encrypt_amount, homomorphic_add, homomorphic_sub,
    subtract_encrypted, verify_proof, verify_transfer_proof, MIN_PROOF_LEN,
};

#[test]
fn blank_or_empty_proofs_are_rejected() {
    let inputs = [[1u8; 32], [2u8; 32]];
    assert!(!verify_proof(&[], &inputs));
    assert!(!verify_proof(&[0u8; 32], &inputs));
    assert!(!verify_proof(&[0u8; 192], &inputs));
    assert!(!verify_proof(&vec![0u8; 4096], &inputs));
}

#[test]
fn short_proofs_are_rejected() {
    let inputs = [[1u8; 32]];
    assert_eq!(MIN_PROOF_LEN, 32);
    assert!(!verify_proof(&[1u8; 1], &inputs));
    assert!(!verify_proof(&[1u8; 31], &inputs));
    assert!(verify_proof(&[1u8; 32], &inputs));
    assert!(verify_proof(&[1u8; 33], &inputs));
}

#[test]
fn proofs_about_nothing_are_rejected() {
    assert!(!verify_proof(&[1u8; 64], &[]));
}

#[test]
fn one_nonzero_byte_is_enough() {
    let mut proof = [0u8; 32];
    proof[31] = 1;
    assert!(verify_proof(&proof, &[[0u8; 32]]));
}

#[test]
fn transfer_proofs_are_screened_like_the_others() {
    let balance = [0u8; 64];
    let amount = [1u8; 64];
    assert!(verify_transfer_proof(&balance, &amount, &[0u8; 32], &[0u8; 32], &[7u8; 32]));
    assert!(!verify_transfer_proof(&balance, &amount, &[3u8; 32], &[4u8; 32], &[7u8; 31]));
    assert!(!verify_transfer_proof(&balance, &amount, &[3u8; 32], &[4u8; 32], &[0u8; 40]));
    assert!(!verify_transfer_proof(&balance, &amount, &[3u8; 32], &[4u8; 32], &[]));
}

#[test]
fn encrypt_amount_lays_out_the_blob() {
    let mut key = [0u8; 32];
    for (i, k) in key.iter_mut().enumerate() {
        *k = (i as u8) + 1;
    }
    let blob = encrypt_amount(0x1122334455667788, &key);
    // The amount's bytes, least significant first, each masked with the key.
    assert_eq!(
        &blob[0..8],
        &[0x88 ^ 1, 0x77 ^ 2, 0x66 ^ 3, 0x55 ^ 4, 0x44 ^ 5, 0x33 ^ 6, 0x22 ^ 7, 0x11 ^ 8]
    );
    assert_eq!(&blob[8..32], &[0u8; 24]);
    assert_eq!(&blob[32..64], &key);
}

#[test]
fn decrypt_undoes_encrypt() {
    let key = [0xa5u8; 32];
    for amount in [0u64, 1, 255, 256, 950_000, u64::MAX - 1, u64::MAX] {
        let blob = encrypt_amount(amount, &key);
        assert_eq!(decrypt_amount(&blob, &key), Ok(amount));
    }
    let blob = encrypt_amount(950_000, &key);
    assert_ne!(decrypt_amount(&blob, &[0x5au8; 32]), Ok(950_000));
}

#[test]
fn subtracting_what_was_added_gives_the_balance_back() {
    let balance = encrypt_amount(1_000, &[1u8; 32]);
    let x = encrypt_amount(250, &[1u8; 32]);
    let sum = homomorphic_add(&balance, &x);
    assert_eq!(homomorphic_sub(&sum, &x), balance);
    let sum = add_encrypted(&balance, &x).unwrap();
    assert_eq!(subtract_encrypted(&sum, &x), Ok(balance));
}

#[test]
fn the_blob_algebra_keeps_the_left_operand() {
    let a = [3u8; 64];
    let b = [4u8; 64];
    assert_eq!(homomorphic_add(&a, &b), a);
    assert_eq!(homomorphic_sub(&a, &b), a);
}

#[test]
fn little_endian_round_trip() {
    assert_eq!(u64_to_le(0x0102030405060708), [8, 7, 6, 5, 4, 3, 2, 1]);
    assert_eq!(u64_from_le(&[8, 7, 6, 5, 4, 3, 2, 1]), 0x0102030405060708);
    assert_eq!(u64_to_le(0), [0u8; 8]);
    assert_eq!(u64_to_le(u64::MAX), [0xffu8; 8]);
    assert_eq!(u64_from_le(&u64_to_le(950_000)), 950_000);
}

#[test]
fn byte_comparisons() {
    assert!(bytes_equal(&[], &[]));
    assert!(bytes_equal(&[1, 2, 3], &[1, 2, 3]));
    assert!(!bytes_equal(&[1, 2, 3], &[1, 2]));
    assert!(!bytes_equal(&[1, 2, 3], &[1, 2, 4]));
    assert!(digests_equal(&[9u8; 32], &[9u8; 32]));
    let mut other = [9u8; 32];
    other[31] = 8;
    assert!(!digests_equal(&[9u8; 32], &other));
    assert!(is_all_zero(&[]));
    assert!(is_all_zero(&[0, 0, 0]));
    assert!(!is_all_zero(&[0, 0, 1]));
}

#[test]
fn appending_bytes() {
    let mut buf = vec![1u8, 2];
    psol::bytes::append_bytes(&mut buf, &[3, 4, 5]);
    assert_eq!(buf, vec![1, 2, 3, 4, 5]);
    psol::bytes::append_bytes(&mut buf, &[]);
    assert_eq!(buf, vec![1, 2, 3, 4, 5]);
}
