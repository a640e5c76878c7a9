//! Tests for the byte-level interface: result codes, constants, identity
//! derivation, size estimation, and encryption/decryption scenarios.

use ark_ec::PrimeGroup;
use ark_serialize::CanonicalSerialize;
use ark_std::test_rng;
use ark_std::UniformRand;
use sha2::{Digest, Sha256};

use timelock::api::{
    decrypt, derive_drand_identity, encrypt, estimate_ciphertext_size, TimelockError,
    TimelockResult, BLS_G1_SIZE, BLS_G2_SIZE, SERIALIZATION_OVERHEAD,
    TIMELOCK_CIPHERTEXT_OVERHEAD, TIMELOCK_IDENTITY_SIZE, TIMELOCK_SECRET_KEY_SIZE,
};
use timelock::ibe::Identity;
use ark_bls12_381::{G1Affine, G2Affine};

// Drand Quicknet production public key, compressed G2, hex-encoded.
const DRAND_QUICKNET_PK_HEX: &str = "83cf0f2896adee7eb8b5f01fcad3912212c437e0073e911fb90022d3e760183c8c4b450b6a0a6c3ac6a5776a2d1064510d1fec758c921cc22b0e17e63aaf4bcb5ed66304de9cf809bd274ca73bab4af5a6e9c76a4bc09e76eae8991ef5ece45a";

/// Deterministic test keys: a master scalar, its serialized bytes, and the
/// beacon public key bytes `msk * P` in G2.
fn test_keys() -> (Vec<u8>, Vec<u8>) {
    let msk = ark_bls12_381::Fr::rand(&mut test_rng());
    let mut msk_bytes = Vec::new();
    msk.serialize_compressed(&mut msk_bytes).unwrap();
    let p_pub = ark_bls12_381::G2Projective::generator() * msk;
    let mut p_pub_bytes = Vec::new();
    p_pub.serialize_compressed(&mut p_pub_bytes).unwrap();
    (msk_bytes, p_pub_bytes)
}

/// The beacon signature for a round: the extraction of the round identity
/// under the master scalar.
fn round_signature(round: u64, msk_bytes: &[u8]) -> Vec<u8> {
    let digest = derive_drand_identity(round);
    let identity = Identity::new(b"", &digest);
    identity.extract(msk_bytes).unwrap().0
}

#[test]
fn test_error_codes() {
    assert_eq!(TimelockResult::Success as i32, 0);
    assert_eq!(TimelockResult::InvalidInput as i32, 1);
    assert_eq!(TimelockResult::EncryptionFailed as i32, 2);
    assert_eq!(TimelockResult::DecryptionFailed as i32, 3);
    assert_eq!(TimelockResult::MemoryError as i32, 4);
    assert_eq!(TimelockResult::SerializationError as i32, 5);
    assert_eq!(TimelockResult::InvalidPublicKey as i32, 6);
    assert_eq!(TimelockResult::InvalidSignature as i32, 7);
}

#[test]
fn test_constants() {
    assert_eq!(TIMELOCK_IDENTITY_SIZE, 32);
    assert_eq!(TIMELOCK_SECRET_KEY_SIZE, 32);
}

#[test]
fn test_error_to_result_codes() {
    assert_eq!(TimelockError::InvalidInput.to_result(), TimelockResult::InvalidInput);
    assert_eq!(TimelockError::EncryptionFailed.to_result(), TimelockResult::EncryptionFailed);
    assert_eq!(TimelockError::DecryptionFailed.to_result(), TimelockResult::DecryptionFailed);
    assert_eq!(TimelockError::MemoryError.to_result(), TimelockResult::MemoryError);
    assert_eq!(
        TimelockError::SerializationError.to_result(),
        TimelockResult::SerializationError
    );
    assert_eq!(TimelockError::InvalidPublicKey.to_result(), TimelockResult::InvalidPublicKey);
    assert_eq!(TimelockError::InvalidSignature.to_result(), TimelockResult::InvalidSignature);
}

#[test]
fn test_identity_creation() {
    let identity = derive_drand_identity(1000);
    assert_eq!(identity.len(), 32);

    // Verify against known hash
    let mut hasher = Sha256::new();
    hasher.update(1000u64.to_be_bytes());
    let expected = hasher.finalize();
    assert_eq!(identity, expected.as_slice());
}

#[test]
fn test_identity_determinism() {
    // Identical rounds give identical digests; distinct rounds differ.
    assert_eq!(derive_drand_identity(42), derive_drand_identity(42));
    assert_ne!(derive_drand_identity(42), derive_drand_identity(43));
}

#[test]
fn test_estimate_ciphertext_size() {
    let estimated = estimate_ciphertext_size(100).unwrap();
    assert!(estimated > 100); // Should be larger than message
    assert!(estimated < 1000); // But reasonable

    // Overflow must be reported, not wrapped.
    assert!(estimate_ciphertext_size(usize::MAX).is_none());
}

#[test]
fn test_estimate_size_boundary_conditions() {
    // Zero-length message still has overhead.
    let estimated = estimate_ciphertext_size(0).unwrap();
    assert!(estimated > 0);

    // A large message has only the fixed overhead on top.
    let estimated = estimate_ciphertext_size(1_000_000).unwrap();
    assert!(estimated >= 1_000_000);
    assert!(estimated < 1_000_000 * 2);

    for msg_len in [1usize, 16, 64, 256, 1024, 4096] {
        let estimated = estimate_ciphertext_size(msg_len).unwrap();
        assert!(estimated >= msg_len);
        assert_eq!(estimated, msg_len + TIMELOCK_CIPHERTEXT_OVERHEAD);
    }
}

#[test]
fn test_cryptographic_constants_match_library() {

    let g1_compressed_size = G1Affine::identity().compressed_size();
    let g2_compressed_size = G2Affine::identity().compressed_size();

    assert_eq!(
        g1_compressed_size, BLS_G1_SIZE,
        "BLS_G1_SIZE constant ({}) doesn't match library compressed size ({})",
        BLS_G1_SIZE, g1_compressed_size
    );
    assert_eq!(
        g2_compressed_size, BLS_G2_SIZE,
        "BLS_G2_SIZE constant ({}) doesn't match library compressed size ({})",
        BLS_G2_SIZE, g2_compressed_size
    );

    assert!(
        SERIALIZATION_OVERHEAD > 0,
        "SERIALIZATION_OVERHEAD ({}) should be positive",
        SERIALIZATION_OVERHEAD
    );
    assert!(
        SERIALIZATION_OVERHEAD < 50,
        "SERIALIZATION_OVERHEAD ({}) seems unreasonably large for metadata",
        SERIALIZATION_OVERHEAD
    );
    assert!(
        SERIALIZATION_OVERHEAD >= 8 && SERIALIZATION_OVERHEAD <= 32,
        "SERIALIZATION_OVERHEAD ({}) outside expected range [8-32] for metadata overhead",
        SERIALIZATION_OVERHEAD
    );
}

#[test]
fn test_size_constants_match_library() {

    let g1_size = G1Affine::identity().compressed_size();
    let g2_size = G2Affine::identity().compressed_size();

    assert_eq!(
        BLS_G1_SIZE, g1_size,
        "BLS_G1_SIZE constant ({}) doesn't match library compressed size ({})",
        BLS_G1_SIZE, g1_size
    );
    assert_eq!(
        BLS_G2_SIZE, g2_size,
        "BLS_G2_SIZE constant ({}) doesn't match library compressed size ({})",
        BLS_G2_SIZE, g2_size
    );
}

#[test]
fn test_encrypt_decrypt_roundtrip() {
    let message = b"Hello, Timelock World! This is a roundtrip test.";
    let (msk_bytes, p_pub_bytes) = test_keys();
    let identity = derive_drand_identity(1000);

    let mut session_key = vec![2u8; 32];
    let ciphertext =
        encrypt(message, &identity, &p_pub_bytes, &mut session_key).expect("encrypt works");
    assert!(ciphertext.len() > message.len());

    let signature = round_signature(1000, &msk_bytes);
    let plaintext = decrypt(&ciphertext, &signature).expect("decrypt works");
    assert_eq!(plaintext, message.to_vec());
}

#[test]
fn scenario_round_1000_hello_timelock() {
    // Encrypting a short message for round 1000 under the production
    // QuickNet public key: the ciphertext is message length plus the fixed
    // framing (215 bytes for an 11-byte suite label), about 220-235 bytes.
    let message = b"Hello, Timelock";
    let identity = derive_drand_identity(1000);
    let p_pub = hex::decode(DRAND_QUICKNET_PK_HEX).unwrap();

    let mut session_key = vec![2u8; 32];
    let ciphertext = encrypt(message, &identity, &p_pub, &mut session_key).unwrap();
    assert_eq!(ciphertext.len(), 215 + message.len());

    // The real beacon signature for round 1000 is not available here, so
    // the full decryption of this particular ciphertext is exercised with
    // locally generated keys in test_encrypt_decrypt_roundtrip.
}

#[test]
fn scenario_empty_message() {
    let (msk_bytes, p_pub_bytes) = test_keys();
    let identity = derive_drand_identity(7);

    let mut session_key = vec![9u8; 32];
    let ciphertext = encrypt(b"", &identity, &p_pub_bytes, &mut session_key).unwrap();
    assert!(ciphertext.len() >= 204);

    let signature = round_signature(7, &msk_bytes);
    let plaintext = decrypt(&ciphertext, &signature).unwrap();
    assert_eq!(plaintext, Vec::<u8>::new());
}

#[test]
fn scenario_large_message() {
    let message = vec![0xABu8; 10_000];
    let (msk_bytes, p_pub_bytes) = test_keys();
    let identity = derive_drand_identity(123);

    let mut session_key = vec![5u8; 32];
    let ciphertext = encrypt(&message, &identity, &p_pub_bytes, &mut session_key).unwrap();
    assert_eq!(ciphertext.len(), message.len() + 215);

    let signature = round_signature(123, &msk_bytes);
    let plaintext = decrypt(&ciphertext, &signature).unwrap();
    assert_eq!(plaintext, message);
}

#[test]
fn scenario_corrupted_body_fails() {
    let message = b"tamper with me";
    let (msk_bytes, p_pub_bytes) = test_keys();
    let identity = derive_drand_identity(55);

    let mut session_key = vec![3u8; 32];
    let mut ciphertext = encrypt(message, &identity, &p_pub_bytes, &mut session_key).unwrap();

    // Corrupt the last byte of the ciphertext body (the serialized stream
    // ends with the 16-byte tag, the 8-byte suite length and the 11-byte
    // suite label, so the body's last byte sits 36 from the end).
    let body_last = ciphertext.len() - 36;
    ciphertext[body_last] ^= 0x01;

    let signature = round_signature(55, &msk_bytes);
    assert_eq!(decrypt(&ciphertext, &signature), Err(TimelockError::DecryptionFailed));
}

#[test]
fn scenario_wrong_round_signature_fails() {
    let message = b"for round 1000 only";
    let (msk_bytes, p_pub_bytes) = test_keys();
    let identity = derive_drand_identity(1000);

    let mut session_key = vec![4u8; 32];
    let ciphertext = encrypt(message, &identity, &p_pub_bytes, &mut session_key).unwrap();

    // A perfectly valid signature, but for round 999.
    let signature = round_signature(999, &msk_bytes);
    assert_eq!(decrypt(&ciphertext, &signature), Err(TimelockError::DecryptionFailed));
}

#[test]
fn scenario_malformed_public_key_fails() {
    let message = b"test";
    let identity = derive_drand_identity(1);

    // 94 hex characters decode to 47 bytes: wrong length for G2.
    let truncated_pk = hex::decode(&DRAND_QUICKNET_PK_HEX[..94]).unwrap();
    let mut session_key = vec![2u8; 32];
    let r = encrypt(message, &identity, &truncated_pk, &mut session_key);
    assert_eq!(r, Err(TimelockError::InvalidPublicKey));
    // No side effects beyond the promised key wipe.
    assert_eq!(session_key, vec![0u8; 32]);

    // Right length, but not a point on the curve.
    let garbage_pk = vec![0x99u8; 96];
    let mut session_key = vec![2u8; 32];
    let r = encrypt(message, &identity, &garbage_pk, &mut session_key);
    assert_eq!(r, Err(TimelockError::InvalidPublicKey));
}

#[test]
fn encrypt_rejects_bad_identity_length() {
    let (_, p_pub_bytes) = test_keys();
    let mut session_key = vec![2u8; 32];
    let r = encrypt(b"test", &[1u8; 16], &p_pub_bytes, &mut session_key);
    assert_eq!(r, Err(TimelockError::InvalidInput));
    assert_eq!(session_key, vec![0u8; 32]);
}

#[test]
fn decrypt_rejects_bad_signature() {
    let message = b"sig tests";
    let (msk_bytes, p_pub_bytes) = test_keys();
    let identity = derive_drand_identity(77);
    let mut session_key = vec![6u8; 32];
    let ciphertext = encrypt(message, &identity, &p_pub_bytes, &mut session_key).unwrap();
    let _ = msk_bytes;

    // Wrong length.
    assert_eq!(
        decrypt(&ciphertext, &[1u8; 20]),
        Err(TimelockError::InvalidSignature)
    );
    // Right length, invalid point.
    assert_eq!(
        decrypt(&ciphertext, &[0x77u8; 48]),
        Err(TimelockError::InvalidSignature)
    );
}

#[test]
fn decrypt_rejects_malformed_ciphertext() {
    let (msk_bytes, _) = test_keys();
    let signature = round_signature(3, &msk_bytes);

    // Too short to hold the fixed framing.
    assert_eq!(
        decrypt(&[1u8; 100], &signature),
        Err(TimelockError::SerializationError)
    );

    // Long enough, but the body length field points past the end.
    let mut bytes = vec![0u8; 300];
    bytes[172] = 0xFF;
    bytes[173] = 0xFF;
    assert_eq!(decrypt(&bytes, &signature), Err(TimelockError::SerializationError));
}

#[test]
fn encrypt_wipes_session_key() {
    let (_, p_pub_bytes) = test_keys();
    let identity = derive_drand_identity(11);

    let mut session_key = vec![0xAAu8; 32];
    let _ = encrypt(b"secret-bearing", &identity, &p_pub_bytes, &mut session_key).unwrap();
    assert_eq!(session_key, vec![0u8; 32]);
}
