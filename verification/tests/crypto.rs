use shadow_protocol::bytes::{
    append_bytes, bytes32_eq, count_zero_bytes, is_zero32, option_is,
};
use shadow_protocol::crypto::{check_reserve_encryption, same_prefix8, CryptoUtils};
use shadow_protocol::error::ShadowProtocolError;

fn mixed() -> [u8; 32] {
    let mut out = [0u8; 32];
    for i in 0..32 {
        out[i] = 3 * i as u8 + 1;
    }
    out
}

fn with_zeros(zeros: usize) -> [u8; 32] {
    let mut out = [0xABu8; 32];
    for i in 0..zeros {
        out[2 * i % 32 + (2 * i / 32)] = 0;
    }
    out
}

#[test]
fn encryption_key_is_sha256_of_context() {
    assert_eq!(
        CryptoUtils::derive_encryption_key(5, [1u8; 32], [2u8; 32], 77),
        Ok([
            189, 162, 216, 19, 192, 107, 13, 59, 158, 87, 36, 84, 181, 61, 210, 41, 20, 136, 85,
            166, 137, 91, 36, 57, 16, 233, 234, 255, 108, 190, 69, 181
        ])
    );
}

#[test]
fn encryption_key_verifies_only_its_own_context() {
    let key = CryptoUtils::derive_encryption_key(5, [1u8; 32], [2u8; 32], 77).unwrap();
    assert_eq!(CryptoUtils::verify_encryption_key(key, 5, [1u8; 32], [2u8; 32], 77), Ok(true));
    assert_eq!(CryptoUtils::verify_encryption_key(key, 6, [1u8; 32], [2u8; 32], 77), Ok(false));
    assert_eq!(CryptoUtils::verify_encryption_key(key, 5, [2u8; 32], [1u8; 32], 77), Ok(false));
    assert_eq!(CryptoUtils::verify_encryption_key(key, 5, [1u8; 32], [2u8; 32], 78), Ok(false));
    assert_eq!(
        CryptoUtils::verify_encryption_key([0u8; 32], 5, [1u8; 32], [2u8; 32], 77),
        Ok(false)
    );
}

#[test]
fn auction_public_key_is_sha256_of_context() {
    assert_eq!(
        CryptoUtils::derive_auction_public_key(5, [2u8; 32], 1234),
        Ok([
            67, 225, 121, 67, 51, 161, 50, 150, 64, 252, 5, 125, 58, 229, 110, 221, 77, 191, 144,
            80, 128, 73, 197, 153, 200, 251, 77, 115, 128, 241, 129, 173
        ])
    );
}

#[test]
fn mpc_computation_verifies_against_its_digest() {
    let expected = [
        18, 213, 18, 135, 111, 86, 228, 152, 194, 39, 208, 96, 158, 70, 118, 4, 181, 113, 223, 67,
        104, 64, 221, 167, 100, 10, 137, 157, 240, 23, 36, 169,
    ];
    assert_eq!(CryptoUtils::verify_mpc_computation(&[1, 2, 3], 5, 4, 999, expected), Ok(true));
    assert_eq!(CryptoUtils::verify_mpc_computation(&[1, 2, 4], 5, 4, 999, expected), Ok(false));
    assert_eq!(CryptoUtils::verify_mpc_computation(&[1, 2, 3], 5, 5, 999, expected), Ok(false));
    assert_eq!(CryptoUtils::verify_mpc_computation(&[1, 2, 3], 5, 4, 998, expected), Ok(false));
}

#[test]
fn bid_commitment_is_sha256_of_bid() {
    assert_eq!(
        CryptoUtils::generate_bid_commitment([1u8; 32], 500, 77, 5),
        Ok([
            141, 198, 117, 87, 226, 15, 51, 138, 187, 21, 193, 73, 197, 85, 208, 83, 171, 172, 156,
            66, 4, 25, 48, 13, 72, 123, 206, 124, 238, 168, 154, 235
        ])
    );
}

#[test]
fn encryption_context_and_its_hash() {
    let context = CryptoUtils::derive_auction_encryption_context(5, [2u8; 32], 77);
    assert_eq!(
        context,
        [
            189, 74, 190, 133, 38, 176, 183, 219, 251, 79, 85, 51, 144, 236, 139, 4, 243, 129, 144,
            14, 77, 145, 239, 194, 61, 12, 115, 209, 15, 194, 181, 247
        ]
    );
    assert_eq!(
        CryptoUtils::hash_encryption_context(&context),
        [
            180, 83, 62, 246, 186, 133, 108, 74, 236, 54, 78, 7, 231, 99, 218, 97, 199, 145, 66,
            127, 144, 94, 89, 178, 247, 110, 99, 72, 141, 219, 81, 239
        ]
    );
}

#[test]
fn commitment_test_accepts_sane_values() {
    assert_eq!(CryptoUtils::validate_encrypted_bid(&mixed(), &[7u8; 32], 1, 100), Ok(()));
}

#[test]
fn commitment_test_rejects_zero_nonce() {
    assert_eq!(
        CryptoUtils::validate_encrypted_bid(&mixed(), &[7u8; 32], 0, 100),
        Err(ShadowProtocolError::InvalidEncryption)
    );
}

#[test]
fn commitment_test_rejects_zero_key() {
    assert_eq!(
        CryptoUtils::validate_encrypted_bid(&mixed(), &[0u8; 32], 1, 100),
        Err(ShadowProtocolError::InvalidEncryption)
    );
}

#[test]
fn commitment_test_rejects_zero_blob() {
    assert_eq!(
        CryptoUtils::validate_encrypted_bid(&[0u8; 32], &[7u8; 32], 1, 100),
        Err(ShadowProtocolError::InvalidEncryption)
    );
}

#[test]
fn commitment_test_entropy_floor_is_sixteen_zero_bytes() {
    let fifteen = with_zeros(15);
    let sixteen = with_zeros(16);
    assert_eq!(count_zero_bytes(&fifteen), 15);
    assert_eq!(count_zero_bytes(&sixteen), 16);
    assert_eq!(CryptoUtils::validate_encrypted_bid(&fifteen, &[7u8; 32], 1, 100), Ok(()));
    assert_eq!(
        CryptoUtils::validate_encrypted_bid(&sixteen, &[7u8; 32], 1, 100),
        Err(ShadowProtocolError::InvalidEncryption)
    );
}

#[test]
fn reserve_test_against_context_hash() {
    let context_hash = CryptoUtils::hash_encryption_context(
        &CryptoUtils::derive_auction_encryption_context(5, [2u8; 32], 77),
    );
    assert_eq!(CryptoUtils::validate_auction_encryption(&mixed(), 77, [2u8; 32], 5), Ok(()));
    assert_eq!(
        CryptoUtils::validate_auction_encryption(&mixed(), 0, [2u8; 32], 5),
        Err(ShadowProtocolError::InvalidEncryption)
    );
    assert_eq!(
        CryptoUtils::validate_auction_encryption(&[0u8; 32], 77, [2u8; 32], 5),
        Err(ShadowProtocolError::InvalidEncryption)
    );
    let mut copied = mixed();
    copied[..8].copy_from_slice(&context_hash[..8]);
    assert_eq!(
        CryptoUtils::validate_auction_encryption(&copied, 77, [2u8; 32], 5),
        Err(ShadowProtocolError::InvalidEncryption)
    );
    copied[7] ^= 1;
    assert_eq!(CryptoUtils::validate_auction_encryption(&copied, 77, [2u8; 32], 5), Ok(()));
}

#[test]
fn reserve_check_on_given_hash() {
    let hash = [9u8; 32];
    assert_eq!(check_reserve_encryption(&mixed(), 1, &hash), Ok(()));
    let mut same_start = mixed();
    same_start[..8].copy_from_slice(&hash[..8]);
    assert_eq!(
        check_reserve_encryption(&same_start, 1, &hash),
        Err(ShadowProtocolError::InvalidEncryption)
    );
    assert!(same_prefix8(&same_start, &hash));
    assert!(!same_prefix8(&mixed(), &hash));
}

#[test]
fn byte_helpers() {
    let a = mixed();
    let mut b = mixed();
    assert!(bytes32_eq(&a, &b));
    b[31] ^= 1;
    assert!(!bytes32_eq(&a, &b));
    assert!(is_zero32(&[0u8; 32]));
    assert!(!is_zero32(&b));
    assert!(option_is(&Some(a), &a));
    assert!(!option_is(&Some(b), &a));
    assert!(!option_is(&None, &a));
    let mut buf = vec![1u8, 2];
    append_bytes(&mut buf, &[3, 4, 5]);
    assert_eq!(buf, vec![1, 2, 3, 4, 5]);
}
