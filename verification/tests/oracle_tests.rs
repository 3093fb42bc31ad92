use parity_scale_codec::Encode;
use sp_core::Hasher;
use storagehub::hashing::encode_account;
use storagehub::oracle::{
    calculate_xor, check_admission, compute_score, decode_threshold, min_threshold, score,
};

#[test]
fn xor_is_byte_wise() {
    let a: Vec<u8> = (0u8..32).collect();
    let b: Vec<u8> = vec![0xFF; 32];
    let x = calculate_xor(&a, &b);
    let expected: Vec<u8> = (0u8..32).map(|v| v ^ 0xFF).collect();
    assert_eq!(x, expected);

    // XOR with itself is zero.
    assert_eq!(calculate_xor(&a, &a), vec![0u8; 32]);
}

#[test]
fn threshold_decodes_little_endian() {
    let mut bytes = vec![0u8; 32];
    bytes[0] = 0x78;
    bytes[1] = 0x56;
    bytes[2] = 0x34;
    bytes[3] = 0x12;
    // Later bytes do not take part in the decoding.
    bytes[4] = 0xAB;
    assert_eq!(decode_threshold(&bytes), 0x1234_5678);

    assert_eq!(decode_threshold(&vec![1, 0, 0, 0]), 1);
    assert_eq!(decode_threshold(&vec![0, 0, 0, 0]), 0);
    assert_eq!(decode_threshold(&vec![0xFF, 0xFF, 0xFF, 0xFF]), u32::MAX);
}

#[test]
fn account_encoding_matches_wire_codec() {
    // The eight-byte little-endian account encoding is the chain's wire
    // encoding of an unsigned 64-bit value.
    for who in [0u64, 1, 2, 0x0102_0304_0506_0708, u64::MAX] {
        assert_eq!(encode_account(who), who.encode());
    }
    assert_eq!(
        encode_account(0x0102_0304_0506_0708),
        vec![8, 7, 6, 5, 4, 3, 2, 1]
    );
}

#[test]
fn score_matches_direct_hash_computation() {
    // Recompute the score by hand through the hash crate: this fails if
    // the library's hashing step did anything but Blake2-256 the
    // account's wire encoding.
    let fingerprint = sp_core::Blake2Hasher::hash(b"some file content").0.to_vec();
    let who: u64 = 2;

    let direct_hash = sp_core::Blake2Hasher::hash(&who.encode()).0;
    let xored: Vec<u8> = fingerprint
        .iter()
        .zip(direct_hash.iter())
        .map(|(a, b)| a ^ b)
        .collect();
    let expected = u32::from_le_bytes([xored[0], xored[1], xored[2], xored[3]]);

    assert_eq!(compute_score(&fingerprint, who), expected);
    assert_eq!(score(&fingerprint, &direct_hash.to_vec()), expected);
}

#[test]
fn threshold_widens_with_elapsed_blocks() {
    // No elapsed block: the base threshold alone.
    assert_eq!(min_threshold(5, 5, 7), 7);
    // Each elapsed block widens the window by the fixed rate.
    assert_eq!(min_threshold(5, 6, 7), 10_007);
    assert_eq!(min_threshold(5, 105, 0), 1_000_000);
    // A block before the request widens nothing.
    assert_eq!(min_threshold(5, 3, 7), 7);
    // Enough elapsed blocks saturate the threshold type.
    assert_eq!(min_threshold(0, 429_497, 0), u32::MAX);
    assert_eq!(min_threshold(0, u64::MAX, u32::MAX), u32::MAX);
}

#[test]
fn admission_is_monotonic_in_blocks() {
    // A score rejected at the request's own block is admitted once
    // enough blocks elapsed.
    let score_value: u32 = 50_000;
    assert!(!check_admission(score_value, 10, 10, 0));
    assert!(!check_admission(score_value, 10, 14, 0));
    assert!(check_admission(score_value, 10, 15, 0));
    assert!(check_admission(score_value, 10, 1_000_000, 0));
}
