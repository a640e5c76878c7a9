//! Tests for the Boneh-Franklin FullIdent layer.

use ark_ec::PrimeGroup;
use ark_serialize::CanonicalSerialize;
use ark_std::test_rng;
use ark_std::UniformRand;

use timelock::ibe::{Ciphertext, IBESecret, Identity, IbeError, Input};
use timelock::Message;
use sha3::digest::{ExtendableOutput, Update, XofReader};
use ark_ec::hashing::curve_maps::wb::WBMap;
use ark_ec::hashing::map_to_curve_hasher::MapToCurveBasedHasher;
use ark_ec::hashing::HashToCurve;
use ark_ff::field_hashers::DefaultFieldHasher;

enum TestStatusReport {
    DecryptionResult { data: [u8; 32], verify: Vec<u8> },
    DecryptionFailure { error: IbeError },
}

fn extract(identity: &Identity, derive_bad_sk: bool) -> (ark_bls12_381::Fr, IBESecret) {
    let msk = ark_bls12_381::Fr::rand(&mut test_rng());
    let mut msk_bytes = Vec::new();
    msk.serialize_compressed(&mut msk_bytes).unwrap();

    if derive_bad_sk {
        let generator = ark_bls12_381::G1Projective::generator();
        let mut generator_bytes = Vec::new();
        generator.serialize_compressed(&mut generator_bytes).unwrap();
        return (msk, IBESecret(generator_bytes));
    }

    let sk = identity.extract(&msk_bytes).unwrap();
    (msk, sk)
}

fn run_test(
    identity: Identity,
    message: [u8; 32],
    derive_bad_sk: bool,
    insert_bad_ciphertext: bool,
    handler: &dyn Fn(TestStatusReport) -> (),
) {
    let (msk, sk) = extract(&identity, derive_bad_sk);

    let p_pub = ark_bls12_381::G2Projective::generator() * msk;
    let mut p_pub_bytes = Vec::new();
    p_pub.serialize_compressed(&mut p_pub_bytes).unwrap();

    let mut generator_bytes = Vec::new();
    ark_bls12_381::G2Projective::generator()
        .serialize_compressed(&mut generator_bytes)
        .unwrap();
    let mut ct = Ciphertext { u: generator_bytes, v: vec![0u8; 32], w: vec![0u8; 32] };

    if !insert_bad_ciphertext {
        ct = identity
            .encrypt(&Input::new(message).unwrap(), &p_pub_bytes)
            .expect("encryption should succeed");
    }

    match sk.decrypt(&ct) {
        Ok(data) => {
            handler(TestStatusReport::DecryptionResult { data, verify: message.to_vec() });
        },
        Err(e) => {
            handler(TestStatusReport::DecryptionFailure { error: e });
        },
    }
}

#[test]
pub fn fullident_identity_construction_works() {
    let identity = Identity::new(b"", &[1, 2, 3]);
    let expected_message = Message::new(b"", &[1, 2, 3]);
    assert_eq!(identity.0, expected_message);
}

#[test]
pub fn fullident_encrypt_and_decrypt() {
    let identity = Identity::new(b"", &[1, 2, 3]);
    let message: [u8; 32] = [2; 32];

    run_test(identity, message, false, false, &|status: TestStatusReport| match status {
        TestStatusReport::DecryptionResult { data, verify } => {
            assert_eq!(data.to_vec(), verify);
        },
        _ => panic!("Decryption should work"),
    });
}

#[test]
pub fn fullident_decryption_fails_with_bad_ciphertext() {
    let identity = Identity::new(b"", &[1, 2, 3]);
    let message: [u8; 32] = [2; 32];

    run_test(identity, message, false, true, &|status: TestStatusReport| match status {
        TestStatusReport::DecryptionFailure { error } => {
            assert_eq!(error, IbeError::DecryptionFailed);
        },
        _ => panic!("all other conditions invalid"),
    });
}

#[test]
pub fn fullident_decryption_fails_with_bad_key() {
    let identity = Identity::new(b"", &[1, 2, 3]);
    let message: [u8; 32] = [2; 32];

    run_test(identity, message, true, false, &|status: TestStatusReport| match status {
        TestStatusReport::DecryptionFailure { error } => {
            assert_eq!(error, IbeError::DecryptionFailed);
        },
        _ => panic!("all other conditions invalid"),
    });
}

#[test]
fn ibe_message_digest_matches_shake128() {
    // The Message digest must really be Shake128 over
    // context ++ message_len_le ++ message, not anything else.
    let context = b"ctx";
    let payload = b"some identity bytes";
    let message = Message::new(context, payload);

    let mut hasher = sha3::Shake128::default();
    hasher.update(context);
    hasher.update(&(payload.len() as u64).to_le_bytes());
    hasher.update(payload);
    let mut expected = [0u8; 32];
    hasher.finalize_xof().read(&mut expected);

    assert_eq!(message.0, expected);
    assert_eq!(message.1, [context.as_slice(), payload.as_slice()].concat());
}

#[test]
fn ibe_extract_rejects_non_canonical_scalar() {
    let identity = Identity::new(b"", &[9, 9, 9]);
    // 32 bytes of 0xFF exceed the group order, so extraction must refuse.
    assert!(identity.extract(&[0xFFu8; 32]).is_none());
    // Wrong length is refused as well.
    assert!(identity.extract(&[1u8; 16]).is_none());
}

#[test]
fn ibe_public_matches_arkworks_hash_to_curve() {
    // The identity's public point must be the RFC 9380 hash of
    // context ++ identity bytes with the QuickNet domain tag.

    let identity = Identity::new(b"", &[1, 2, 3]);
    let q = identity.public();

    let hasher = MapToCurveBasedHasher::<
        ark_bls12_381::G1Projective,
        DefaultFieldHasher<sha2::Sha256, 128>,
        WBMap<ark_bls12_381::g1::Config>,
    >::new(b"BLS_SIG_BLS12381G1_XMD:SHA-256_SSWU_RO_NUL_")
    .unwrap();
    let expected_point = hasher.hash(&[1, 2, 3]).unwrap();
    let mut expected = Vec::new();
    expected_point.serialize_compressed(&mut expected).unwrap();

    assert_eq!(q, expected);
}
