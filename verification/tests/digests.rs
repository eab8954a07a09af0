use psol::crypto;
use psol::state::Pubkey;
use psol::utils;

#[test]
fn sha256_commitment_has_the_known_digest() {
    // SHA-256 of 100 as eight little-endian bytes, then 32 bytes of 0x01.
    let expected: [u8; 32] = [
        34, 152, 6, 248, 90, 199, 127, 132, 94, 161, 65, 3, 215, 239, 172, 233, 210, 17, 19, 164,
        230, 170, 58, 140, 194, 204, 61, 227, 8, 103, 1, 9,
    ];
    assert_eq!(utils::generate_commitment(100, &[1u8; 32]), expected);
    assert!(utils::verify_commitment_opening(&expected, 100, &[1u8; 32]));
    assert!(!utils::verify_commitment_opening(&expected, 101, &[1u8; 32]));
    assert!(!utils::verify_commitment_opening(&expected, 100, &[2u8; 32]));
    assert!(!utils::verify_commitment_opening(&[1u8; 32], 100, &[1u8; 32]));
}

#[test]
fn sha256_nullifier_has_the_known_digest() {
    // SHA-256 of 32 bytes of 0x02, then 1 as eight little-endian bytes.
    let expected: [u8; 32] = [
        177, 6, 117, 46, 182, 182, 246, 11, 254, 79, 126, 183, 144, 149, 82, 171, 235, 248, 255,
        237, 18, 35, 157, 108, 248, 192, 134, 223, 210, 76, 167, 43,
    ];
    assert_eq!(utils::generate_nullifier(&[2u8; 32], 1), expected);
}

#[test]
fn viewing_key_has_the_known_digest() {
    // SHA-256 of the text "viewing_key", then 32 bytes of 0x03.
    let expected: [u8; 32] = [
        95, 147, 116, 40, 14, 200, 197, 96, 42, 233, 90, 57, 164, 125, 28, 146, 50, 158, 224, 231,
        0, 243, 193, 86, 43, 105, 20, 25, 113, 20, 17, 193,
    ];
    assert_eq!(utils::generate_viewing_key(&[3u8; 32]), expected);
}

#[test]
fn encrypted_value_has_the_known_digest() {
    // SHA-256 of 32 bytes of 0x04, then 5 as eight little-endian bytes.
    let expected: [u8; 32] = [
        212, 183, 49, 70, 220, 219, 229, 97, 241, 249, 68, 230, 140, 160, 251, 60, 38, 159, 209,
        234, 111, 167, 50, 46, 180, 43, 44, 7, 213, 254, 119, 253,
    ];
    assert_eq!(utils::encrypt_value(5, &[4u8; 32]), expected);
    assert_eq!(utils::decrypt_value(&expected, &[4u8; 32]), Some(0));
}

#[test]
fn pedersen_commit_has_the_known_digest() {
    // SHA-256 of 08 07 06 05 04 03 02 01, then 32 bytes of 0x09.
    let expected: [u8; 32] = [
        111, 142, 237, 7, 219, 17, 28, 3, 208, 17, 236, 101, 168, 176, 48, 35, 42, 199, 129, 237,
        217, 139, 243, 191, 245, 50, 97, 149, 13, 60, 117, 80,
    ];
    assert_eq!(crypto::pedersen_commit(0x0102030405060708, &[9u8; 32]), expected);
}

#[test]
fn crypto_nullifier_has_the_known_digest() {
    // SHA-256 of 32 bytes of 0x01, then 32 bytes of 0x02.
    let expected: [u8; 32] = [
        248, 24, 175, 211, 122, 109, 195, 188, 146, 251, 68, 115, 16, 17, 39, 112, 6, 219, 78,
        250, 110, 144, 35, 205, 116, 104, 192, 35, 53, 210, 42, 77,
    ];
    assert_eq!(crypto::generate_nullifier(&[1u8; 32], &[2u8; 32]), expected);
    assert_eq!(crypto::nullifier(&Pubkey::new([1u8; 32]), &[2u8; 32]), expected);
}

#[test]
fn deposit_commitment_has_the_known_digest() {
    // SHA-256 of 32 bytes of 0x07, then 10 and 1 as eight little-endian bytes each.
    let expected: [u8; 32] = [
        44, 172, 231, 98, 157, 118, 87, 252, 7, 18, 143, 202, 206, 101, 153, 132, 67, 208, 247,
        176, 116, 171, 218, 58, 59, 88, 5, 228, 203, 246, 47, 255,
    ];
    assert_eq!(crypto::commitment(&Pubkey::new([7u8; 32]), 10, 1), expected);
}

#[test]
fn proof_transcript_has_the_known_digest() {
    // SHA-256 of the text "psol:proof:v1", the proof, and the two inputs.
    let expected: [u8; 32] = [
        129, 141, 170, 69, 145, 49, 40, 51, 215, 72, 173, 168, 33, 114, 51, 32, 221, 21, 10, 47,
        136, 201, 132, 102, 9, 47, 140, 131, 181, 27, 153, 220,
    ];
    let inputs = [[1u8; 32], [2u8; 32]];
    assert_eq!(crypto::bind_proof(&[5u8; 32], &inputs), Some(expected));
    assert_eq!(crypto::bind_proof(&[5u8; 31], &inputs), None);
    assert_eq!(crypto::bind_proof(&[0u8; 32], &inputs), None);
    assert_eq!(crypto::bind_proof(&[5u8; 32], &[]), None);
}
