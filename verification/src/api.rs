//! The byte-level interface that foreign-callable wrappers build on:
//! identity derivation for drand rounds, encryption and decryption over
//! plain byte strings, ciphertext size estimation, and the stable result
//! codes of the boundary's error taxonomy.

use vstd::prelude::*;

use crate::block_ciphers::{AES_GCM_IV_SIZE, AES_GCM_TAG_SIZE};
use crate::engines::{g1_valid, g2_valid, hash_to_g1};
use crate::ibe::Identity;
use crate::tlock::{spec_cipher_suite, spec_serialize, TLECiphertext, TLEError};
use crate::utils::sha256_of;

verus! {

/// Size of an identity digest in bytes (a SHA-256 digest).
pub const TIMELOCK_IDENTITY_SIZE: usize = 32;

/// Size of a session secret key in bytes.
pub const TIMELOCK_SECRET_KEY_SIZE: usize = 32;

/// Compressed size of a BLS12-381 G1 point (a signature).
pub const BLS_G1_SIZE: usize = crate::engines::SIGNATURE_SERIALIZED_SIZE;

/// Compressed size of a BLS12-381 G2 point (a public key).
pub const BLS_G2_SIZE: usize = crate::engines::PUBLICKEY_SERIALIZED_SIZE;

/// Bytes budgeted for length prefixes and the cipher-suite label in a
/// serialized ciphertext (the two 8-byte prefixes and the 11-byte label,
/// rounded up).
pub const SERIALIZATION_OVERHEAD: usize = 32;

/// Upper bound on the fixed overhead of a serialized ciphertext over its
/// message: the header point and pads, the nonce, the tag, and the
/// framing budget.
pub const TIMELOCK_CIPHERTEXT_OVERHEAD: usize = BLS_G2_SIZE + 32 + 32 + AES_GCM_IV_SIZE
    + AES_GCM_TAG_SIZE + SERIALIZATION_OVERHEAD;

/// Result codes for timelock operations, stable across the boundary:
/// their declaration order is their integer code, `Success` being 0.
#[derive(Debug, Clone, Copy, PartialEq, Eq, Structural)]
pub enum TimelockResult {
    /// Operation succeeded
    Success,
    /// Invalid input parameters
    InvalidInput,
    /// Encryption failed
    EncryptionFailed,
    /// Decryption failed
    DecryptionFailed,
    /// Memory allocation failed
    MemoryError,
    /// Serialization/deserialization failed
    SerializationError,
    /// Invalid public key
    InvalidPublicKey,
    /// Invalid signature
    InvalidSignature,
}

/// The failures of the byte-level interface; each maps to the
/// `TimelockResult` code of the same name.
#[derive(Debug, Clone, Copy, PartialEq, Eq, Structural)]
pub enum TimelockError {
    /// A buffer had the wrong size.
    InvalidInput,
    /// The random source or the symmetric seal failed.
    EncryptionFailed,
    /// The header check or the authentication tag failed.
    DecryptionFailed,
    /// A caller-side buffer cannot hold the result.
    MemoryError,
    /// The ciphertext byte string is malformed.
    SerializationError,
    /// The public key is not a valid compressed G2 point.
    InvalidPublicKey,
    /// The signature is not a valid compressed G1 point.
    InvalidSignature,
}

/// The result code a failure maps to.
pub open spec fn spec_error_code(e: TimelockError) -> TimelockResult {
    match e {
        TimelockError::InvalidInput => TimelockResult::InvalidInput,
        TimelockError::EncryptionFailed => TimelockResult::EncryptionFailed,
        TimelockError::DecryptionFailed => TimelockResult::DecryptionFailed,
        TimelockError::MemoryError => TimelockResult::MemoryError,
        TimelockError::SerializationError => TimelockResult::SerializationError,
        TimelockError::InvalidPublicKey => TimelockResult::InvalidPublicKey,
        TimelockError::InvalidSignature => TimelockResult::InvalidSignature,
    }
}

impl TimelockError {
    /// Maps the failure to its stable result code.
    pub fn to_result(&self) -> (r: TimelockResult)
        ensures
            r == spec_error_code(*self),
    {
        match self {
            TimelockError::InvalidInput => TimelockResult::InvalidInput,
            TimelockError::EncryptionFailed => TimelockResult::EncryptionFailed,
            TimelockError::DecryptionFailed => TimelockResult::DecryptionFailed,
            TimelockError::MemoryError => TimelockResult::MemoryError,
            TimelockError::SerializationError => TimelockResult::SerializationError,
            TimelockError::InvalidPublicKey => TimelockResult::InvalidPublicKey,
            TimelockError::InvalidSignature => TimelockResult::InvalidSignature,
        }
    }
}

/// A round number as the eight big-endian bytes drand hashes.
pub open spec fn spec_u64_to_be_bytes(x: u64) -> Seq<u8> {
    seq![
        ((x >> 56) & 0xff) as u8,
        ((x >> 48) & 0xff) as u8,
        ((x >> 40) & 0xff) as u8,
        ((x >> 32) & 0xff) as u8,
        ((x >> 24) & 0xff) as u8,
        ((x >> 16) & 0xff) as u8,
        ((x >> 8) & 0xff) as u8,
        (x & 0xff) as u8,
    ]
}

/// Writes a round number as its eight big-endian bytes.
pub fn u64_to_be_bytes(x: u64) -> (r: Vec<u8>)
    ensures
        r@ == spec_u64_to_be_bytes(x),
{
    let mut r: Vec<u8> = Vec::new();
    r.push(((x >> 56) & 0xff) as u8);
    r.push(((x >> 48) & 0xff) as u8);
    r.push(((x >> 40) & 0xff) as u8);
    r.push(((x >> 32) & 0xff) as u8);
    r.push(((x >> 24) & 0xff) as u8);
    r.push(((x >> 16) & 0xff) as u8);
    r.push(((x >> 8) & 0xff) as u8);
    r.push((x & 0xff) as u8);
    proof {
        assert(r@ =~= spec_u64_to_be_bytes(x));
    }
    r
}

/// Derive a drand round identity: the SHA-256 digest of the round number's
/// big-endian bytes. Identical rounds give identical digests, in every
/// process.
pub fn derive_drand_identity(round: u64) -> (r: [u8; 32])
    ensures
        r@ == sha256_of(spec_u64_to_be_bytes(round)),
{
    let round_bytes = u64_to_be_bytes(round);
    let digest = crate::utils::sha256(round_bytes.as_slice());
    crate::utils::to_array_32(digest.as_slice())
}

/// What a successful encryption's output is: the canonical serialization
/// of a well-formed ciphertext whose header encapsulates `key` to the
/// identity's hash point under `public_key`, and whose body seals
/// `message` under `key`.
pub open spec fn spec_encrypted_for(
    out: Seq<u8>,
    message: Seq<u8>,
    identity_digest: Seq<u8>,
    public_key: Seq<u8>,
    key: Seq<u8>,
) -> bool {
    exists|ct: TLECiphertext, sigma: Seq<u8>|
        {
            &&& spec_serialize(ct) == out
            &&& ct.wf()
            &&& sigma.len() == 32
            &&& #[trigger] ct.header.is_encryption_of(
                sigma,
                key,
                public_key,
                hash_to_g1(identity_digest),
            )
            &&& ct.body.is_seal_of(key, message)
            &&& ct.cipher_suite@ == spec_cipher_suite()
        }
}

/// Timelock-encrypt `message` to the round identity given by a 32-byte
/// digest, under the beacon public key (96 compressed bytes) and a
/// caller-supplied fresh 32-byte session key. The session key buffer is
/// zeroized before returning, on success and on every error path.
pub fn encrypt(
    message: &[u8],
    identity_digest: &[u8],
    public_key: &[u8],
    session_key: &mut Vec<u8>,
) -> (r: Result<Vec<u8>, TimelockError>)
    requires
        old(session_key)@.len() == TIMELOCK_SECRET_KEY_SIZE,
    ensures
        final(session_key)@.len() == TIMELOCK_SECRET_KEY_SIZE,
        forall|i: int| 0 <= i < final(session_key)@.len() ==> final(session_key)@[i] == 0u8,
        r matches Ok(out) ==> spec_encrypted_for(
            out@,
            message@,
            identity_digest@,
            public_key@,
            old(session_key)@,
        ),
        r == Err::<Vec<u8>, TimelockError>(TimelockError::InvalidInput) <==> identity_digest@.len()
            != TIMELOCK_IDENTITY_SIZE,
        r == Err::<Vec<u8>, TimelockError>(TimelockError::InvalidPublicKey) <==> identity_digest@.len()
            == TIMELOCK_IDENTITY_SIZE && (public_key@.len() != BLS_G2_SIZE || !g2_valid(
            public_key@,
        )),
        r matches Err(e) ==> e == TimelockError::InvalidInput || e
            == TimelockError::InvalidPublicKey || e == TimelockError::EncryptionFailed,
{
    if identity_digest.len() != TIMELOCK_IDENTITY_SIZE {
        crate::utils::wipe(session_key);
        return Err(TimelockError::InvalidInput);
    }
    if public_key.len() != BLS_G2_SIZE {
        crate::utils::wipe(session_key);
        return Err(TimelockError::InvalidPublicKey);
    }
    if !crate::engines::g2_is_valid(public_key) {
        crate::utils::wipe(session_key);
        return Err(TimelockError::InvalidPublicKey);
    }
    let context: Vec<u8> = Vec::new();
    let identity = Identity::new(context.as_slice(), identity_digest);
    proof {
        assert(Seq::<u8>::empty() + identity_digest@ =~= identity_digest@);
    }
    let ciphertext = match crate::tlock::tle(public_key, session_key, message, &identity) {
        Ok(ct) => ct,
        Err(_) => {
            return Err(TimelockError::EncryptionFailed);
        },
    };
    let serialized = ciphertext.serialize_compressed();
    Ok(serialized)
}

/// Timelock-decrypt a serialized ciphertext with a beacon signature (48
/// compressed bytes). Signature parsing, ciphertext parsing, and the
/// decryption checks fail with distinct codes, in that order; the IBE and
/// AEAD failures are the one `DecryptionFailed`.
pub fn decrypt(ciphertext: &[u8], signature: &[u8]) -> (r: Result<Vec<u8>, TimelockError>)
    ensures
        r == Err::<Vec<u8>, TimelockError>(TimelockError::InvalidSignature) <==> signature@.len() != BLS_G1_SIZE
            || !g1_valid(signature@),
        r == Err::<Vec<u8>, TimelockError>(TimelockError::SerializationError) <==> signature@.len() == BLS_G1_SIZE
            && g1_valid(signature@) && (forall|ct: TLECiphertext|
            ct.wf() ==> ciphertext@ != spec_serialize(ct)),
        r matches Ok(p) ==> exists|ct: TLECiphertext|
            {
                &&& #[trigger] spec_serialize(ct) == ciphertext@
                &&& ct.wf()
                &&& crate::ibe::spec_decrypt_ok(
                    ct.header.u@,
                    ct.header.v@,
                    ct.header.w@,
                    signature@,
                )
                &&& p@.len() == ct.body.body@.len()
                &&& ct.body.body@ + ct.body.tag@ == crate::block_ciphers::aes_seal(
                    crate::ibe::spec_decrypt_message(
                        ct.header.u@,
                        ct.header.v@,
                        ct.header.w@,
                        signature@,
                    ),
                    ct.body.nonce@,
                    p@,
                )
            },
        r matches Err(e) ==> e == TimelockError::InvalidSignature || e
            == TimelockError::SerializationError || e == TimelockError::DecryptionFailed,
        forall|ct: TLECiphertext, p: Seq<u8>|
            {
                &&& ct.wf()
                &&& #[trigger] spec_serialize(ct) == ciphertext@
                &&& crate::ibe::spec_decrypt_ok(
                    ct.header.u@,
                    ct.header.v@,
                    ct.header.w@,
                    signature@,
                )
                &&& p.len() == ct.body.body@.len()
                &&& p.len() <= crate::block_ciphers::AES_GCM_MAX_PLAINTEXT
                &&& ct.body.body@ + ct.body.tag@ == #[trigger] crate::block_ciphers::aes_seal(
                    crate::ibe::spec_decrypt_message(
                        ct.header.u@,
                        ct.header.v@,
                        ct.header.w@,
                        signature@,
                    ),
                    ct.body.nonce@,
                    p,
                )
            } ==> (r matches Ok(q) && q@ == p),
{
    if signature.len() != BLS_G1_SIZE {
        return Err(TimelockError::InvalidSignature);
    }
    if !crate::engines::g1_is_valid(signature) {
        return Err(TimelockError::InvalidSignature);
    }
    let parsed = match TLECiphertext::deserialize_compressed(ciphertext) {
        Ok(ct) => ct,
        Err(_) => {
            return Err(TimelockError::SerializationError);
        },
    };
    let plaintext = match crate::tlock::tld(&parsed, signature) {
        Ok(p) => p,
        Err(_) => {
            proof {
                assert forall|ct: TLECiphertext, p: Seq<u8>|
                    {
                        &&& ct.wf()
                        &&& #[trigger] spec_serialize(ct) == ciphertext@
                        &&& crate::ibe::spec_decrypt_ok(
                            ct.header.u@,
                            ct.header.v@,
                            ct.header.w@,
                            signature@,
                        )
                        &&& p.len() == ct.body.body@.len()
                        &&& p.len() <= crate::block_ciphers::AES_GCM_MAX_PLAINTEXT
                        &&& ct.body.body@ + ct.body.tag@
                            == #[trigger] crate::block_ciphers::aes_seal(
                            crate::ibe::spec_decrypt_message(
                                ct.header.u@,
                                ct.header.v@,
                                ct.header.w@,
                                signature@,
                            ),
                            ct.body.nonce@,
                            p,
                        )
                    } implies false by {
                    crate::tlock::lemma_serialize_injective(ct, parsed);
                    assert(parsed.body.body@ + parsed.body.tag@
                        == crate::block_ciphers::aes_seal(
                        crate::ibe::spec_decrypt_message(
                            parsed.header.u@,
                            parsed.header.v@,
                            parsed.header.w@,
                            signature@,
                        ),
                        parsed.body.nonce@,
                        p,
                    ));
                }
            }
            return Err(TimelockError::DecryptionFailed);
        },
    };
    proof {
        assert forall|ct: TLECiphertext, p: Seq<u8>|
            {
                &&& ct.wf()
                &&& #[trigger] spec_serialize(ct) == ciphertext@
                &&& crate::ibe::spec_decrypt_ok(
                    ct.header.u@,
                    ct.header.v@,
                    ct.header.w@,
                    signature@,
                )
                &&& p.len() == ct.body.body@.len()
                &&& p.len() <= crate::block_ciphers::AES_GCM_MAX_PLAINTEXT
                &&& ct.body.body@ + ct.body.tag@ == #[trigger] crate::block_ciphers::aes_seal(
                    crate::ibe::spec_decrypt_message(
                        ct.header.u@,
                        ct.header.v@,
                        ct.header.w@,
                        signature@,
                    ),
                    ct.body.nonce@,
                    p,
                )
            } implies plaintext@ == p by {
            crate::tlock::lemma_serialize_injective(ct, parsed);
        }
    }
    Ok(plaintext)
}

/// Estimated serialized size for a message of the given length: the
/// message plus the fixed overhead, or nothing when that sum overflows.
pub fn estimate_ciphertext_size(message_len: usize) -> (r: Option<usize>)
    ensures
        r matches Some(s) ==> s == message_len + TIMELOCK_CIPHERTEXT_OVERHEAD,
        message_len + TIMELOCK_CIPHERTEXT_OVERHEAD <= usize::MAX ==> r is Some,
{
    message_len.checked_add(TIMELOCK_CIPHERTEXT_OVERHEAD)
}

} // verus!
