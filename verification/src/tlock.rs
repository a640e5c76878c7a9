//! The timelock composition: a hybrid of IBE and AES-GCM.
//!
//! `tle` seals the payload under a caller-supplied 32-byte session key,
//! encapsulates that key to the round identity with IBE, and bundles both
//! with a cipher-suite label; `tld` inverts it given the beacon signature.
//! The session key is wiped before either function returns, on every path.

use vstd::prelude::*;

use crate::block_ciphers::{
    aes_seal, AESGCMBlockCipherProvider, AESOutput, AES_GCM_IV_SIZE, AES_GCM_MAX_PLAINTEXT,
    AES_GCM_TAG_SIZE,
};
use crate::engines::{
    fr_valid, g1_mul, g1_valid, g2_base_mul, g2_valid, pairs_as_extraction_of,
    PUBLICKEY_SERIALIZED_SIZE, SIGNATURE_SERIALIZED_SIZE,
};
use crate::ibe::{
    lemma_ibe_round_trip, spec_decrypt_message, spec_decrypt_ok, Ciphertext, IBESecret, Identity,
    Input,
};
use crate::utils::spec_h3;

verus! {

/// Failures of the timelock composition. The IBE check and the AEAD tag
/// check collapse into the one `DecryptionFailed`, deliberately
/// indistinguishable to callers.
#[derive(Debug, Clone, PartialEq, Eq, Structural)]
pub enum TLEError {
    /// The random source or the symmetric seal failed.
    EncryptionFailed,
    /// The header check or the authentication tag failed.
    DecryptionFailed,
    /// The ciphertext byte string is malformed.
    SerializationError,
}

/// The cipher-suite label of the AES-GCM-256 binding: the bytes of
/// `AES_GCM_256`.
pub open spec fn spec_cipher_suite() -> Seq<u8> {
    seq![65u8, 69u8, 83u8, 95u8, 71u8, 67u8, 77u8, 95u8, 50u8, 53u8, 54u8]
}

/// The cipher-suite label as a byte vector.
pub fn cipher_suite() -> (r: Vec<u8>)
    ensures
        r@ == spec_cipher_suite(),
{
    let mut v: Vec<u8> = Vec::new();
    v.push(65u8);
    v.push(69u8);
    v.push(83u8);
    v.push(95u8);
    v.push(71u8);
    v.push(67u8);
    v.push(77u8);
    v.push(95u8);
    v.push(50u8);
    v.push(53u8);
    v.push(54u8);
    proof {
        assert(v@ =~= spec_cipher_suite());
    }
    v
}

/// The hybrid ciphertext: the IBE header encapsulating the 32-byte session
/// key, the sealed payload, and the cipher-suite label.
#[derive(Debug, Clone)]
pub struct TLECiphertext {
    /// IBE encryption of the session key to the round identity.
    pub header: Ciphertext,
    /// AES-GCM seal of the payload under the session key.
    pub body: AESOutput,
    /// Identifies the AES/IBE binding; `AES_GCM_256` is the one value.
    pub cipher_suite: Vec<u8>,
}

impl TLECiphertext {
    /// Field widths of a well-formed ciphertext. The variable-length parts
    /// must fit their 64-bit length prefixes, which every in-memory vector
    /// does.
    pub open spec fn wf(&self) -> bool {
        &&& self.header.wf()
        &&& self.body.wf()
        &&& self.body.body@.len() <= u64::MAX
        &&& self.cipher_suite@.len() <= u64::MAX
    }
}

impl TLECiphertext {
    /// Serializes the ciphertext into its canonical byte form.
    pub fn serialize_compressed(&self) -> (r: Vec<u8>)
        requires
            self.wf(),
        ensures
            r@ == spec_serialize(*self),
    {
        let mut out: Vec<u8> = Vec::new();
        out.extend_from_slice(self.header.u.as_slice());
        out.extend_from_slice(self.header.v.as_slice());
        out.extend_from_slice(self.header.w.as_slice());
        out.extend_from_slice(self.body.nonce.as_slice());
        let body_len_bytes = vstd::bytes::u64_to_le_bytes(self.body.body.len() as u64);
        out.extend_from_slice(body_len_bytes.as_slice());
        out.extend_from_slice(self.body.body.as_slice());
        out.extend_from_slice(self.body.tag.as_slice());
        let suite_len_bytes = vstd::bytes::u64_to_le_bytes(self.cipher_suite.len() as u64);
        out.extend_from_slice(suite_len_bytes.as_slice());
        out.extend_from_slice(self.cipher_suite.as_slice());
        proof {
            assert(out@ =~= spec_serialize(*self));
        }
        out
    }

    /// Parses a ciphertext from its canonical byte form, validating every
    /// length field before allocating and rejecting trailing bytes. The
    /// byte strings it accepts are exactly the canonical forms of
    /// well-formed ciphertexts.
    pub fn deserialize_compressed(data: &[u8]) -> (r: Result<TLECiphertext, TLEError>)
        ensures
            r matches Ok(ct) ==> ct.wf() && data@ == spec_serialize(ct),
            r matches Err(e) ==> e == TLEError::SerializationError,
            r is Err ==> forall|ct: TLECiphertext| ct.wf() ==> data@ != spec_serialize(ct),
    {
        proof {
            vstd::bytes::lemma_auto_spec_u64_to_from_le_bytes();
        }
        let n: usize = data.len();
        if n < SERIALIZED_FIXED_OVERHEAD {
            proof {
                assert forall|ct: TLECiphertext| ct.wf() implies data@ != spec_serialize(
                    ct,
                ) by {
                    lemma_serialize_parts(ct);
                }
            }
            return Err(TLEError::SerializationError);
        }
        let body_len_bytes = vstd::slice::slice_subrange(data, 172, 180);
        let body_len: u64 = vstd::bytes::u64_from_le_bytes(body_len_bytes);
        let remaining: usize = n - SERIALIZED_FIXED_OVERHEAD;
        if body_len > remaining as u64 {
            proof {
                assert forall|ct: TLECiphertext| ct.wf() implies data@ != spec_serialize(
                    ct,
                ) by {
                    lemma_serialize_parts(ct);
                }
            }
            return Err(TLEError::SerializationError);
        }
        let bl: usize = body_len as usize;
        let suite_len_bytes = vstd::slice::slice_subrange(data, 196 + bl, 204 + bl);
        let suite_len: u64 = vstd::bytes::u64_from_le_bytes(suite_len_bytes);
        let remaining_suite: usize = remaining - bl;
        if suite_len != remaining_suite as u64 {
            proof {
                assert forall|ct: TLECiphertext| ct.wf() implies data@ != spec_serialize(
                    ct,
                ) by {
                    lemma_serialize_parts(ct);
                }
            }
            return Err(TLEError::SerializationError);
        }
        let u = vstd::slice::slice_to_vec(vstd::slice::slice_subrange(data, 0, 96));
        let v = vstd::slice::slice_to_vec(vstd::slice::slice_subrange(data, 96, 128));
        let w = vstd::slice::slice_to_vec(vstd::slice::slice_subrange(data, 128, 160));
        let nonce = vstd::slice::slice_to_vec(vstd::slice::slice_subrange(data, 160, 172));
        let body = vstd::slice::slice_to_vec(vstd::slice::slice_subrange(data, 180, 180 + bl));
        let tag = vstd::slice::slice_to_vec(
            vstd::slice::slice_subrange(data, 180 + bl, 196 + bl),
        );
        let suite = vstd::slice::slice_to_vec(vstd::slice::slice_subrange(data, 204 + bl, n));
        let ct = TLECiphertext {
            header: Ciphertext { u, v, w },
            body: AESOutput { nonce, body, tag },
            cipher_suite: suite,
        };
        proof {
            assert(data@ =~= spec_serialize(ct));
        }
        Ok(ct)
    }
}

impl PartialEq for TLECiphertext {
    fn eq(&self, other: &TLECiphertext) -> (r: bool) {
        self.header == other.header && self.body == other.body
            && crate::utils::bytes_eq(self.cipher_suite.as_slice(), other.cipher_suite.as_slice())
    }
}

impl vstd::std_specs::cmp::PartialEqSpecImpl for TLECiphertext {
    open spec fn obeys_eq_spec() -> bool {
        true
    }

    open spec fn eq_spec(&self, other: &TLECiphertext) -> bool {
        &&& self.header.u@ == other.header.u@
        &&& self.header.v@ == other.header.v@
        &&& self.header.w@ == other.header.w@
        &&& self.body.nonce@ == other.body.nonce@
        &&& self.body.body@ == other.body.body@
        &&& self.body.tag@ == other.body.tag@
        &&& self.cipher_suite@ == other.cipher_suite@
    }
}

impl Eq for TLECiphertext {

}

/// Timelock encryption: seal `message` under the 32-byte `secret_key`,
/// IBE-encrypt that key to `identity` under the beacon public key `p_pub`,
/// and bundle both. The caller's key buffer is zeroized before returning,
/// on every path; the caller must supply a fresh random key per call and
/// never reuse it.
pub fn tle(
    p_pub: &[u8],
    secret_key: &mut Vec<u8>,
    message: &[u8],
    identity: &Identity,
) -> (r: Result<TLECiphertext, TLEError>)
    requires
        p_pub@.len() == PUBLICKEY_SERIALIZED_SIZE,
        g2_valid(p_pub@),
        old(secret_key)@.len() == 32,
    ensures
        final(secret_key)@.len() == 32,
        forall|i: int| 0 <= i < 32 ==> final(secret_key)@[i] == 0u8,
        r matches Ok(ct) ==> {
            &&& ct.wf()
            &&& g2_valid(ct.header.u@)
            &&& ct.cipher_suite@ == spec_cipher_suite()
            &&& ct.body.is_seal_of(old(secret_key)@, message@)
            &&& exists|sigma: Seq<u8>|
                sigma.len() == 32 && #[trigger] ct.header.is_encryption_of(
                    sigma,
                    old(secret_key)@,
                    p_pub@,
                    identity.spec_public(),
                ) && fr_valid(spec_h3(sigma, old(secret_key)@))
        },
        r matches Err(e) ==> e == TLEError::EncryptionFailed,
{
    let message_len: usize = message.len();
    proof {
        assert(message_len <= u64::MAX);
    }
    let key_arr = crate::utils::to_array_32(secret_key.as_slice());
    // Seal the payload under the session key.
    let body = match AESGCMBlockCipherProvider::encrypt(message, secret_key.as_slice()) {
        Some(out) => out,
        None => {
            crate::utils::wipe(secret_key);
            return Err(TLEError::EncryptionFailed);
        },
    };
    // Encapsulate the session key to the identity; the stack copy of the
    // key is cleared as soon as it is handed over.
    let mut key_arr = key_arr;
    let input = Input::new(key_arr);
    crate::utils::wipe_array_32(&mut key_arr);
    let mut msg = match input {
        Ok(inp) => inp,
        Err(_) => {
            crate::utils::wipe(secret_key);
            return Err(TLEError::EncryptionFailed);
        },
    };
    let header = match identity.encrypt(&msg, p_pub) {
        Some(h) => h,
        None => {
            msg.wipe();
            crate::utils::wipe(secret_key);
            return Err(TLEError::EncryptionFailed);
        },
    };
    msg.wipe();
    crate::utils::wipe(secret_key);
    Ok(TLECiphertext { header, body, cipher_suite: cipher_suite() })
}

/// Timelock decryption: recover the session key from the IBE header with
/// the beacon `signature` (the extracted identity secret), then open the
/// sealed payload under it. Every failure is the one `DecryptionFailed`.
pub fn tld(ciphertext: &TLECiphertext, signature: &[u8]) -> (r: Result<Vec<u8>, TLEError>)
    requires
        ciphertext.wf(),
    ensures
        r matches Ok(p) ==> {
            &&& spec_decrypt_ok(
                ciphertext.header.u@,
                ciphertext.header.v@,
                ciphertext.header.w@,
                signature@,
            )
            &&& p@.len() == ciphertext.body.body@.len()
            &&& ciphertext.body.body@ + ciphertext.body.tag@ == aes_seal(
                spec_decrypt_message(
                    ciphertext.header.u@,
                    ciphertext.header.v@,
                    ciphertext.header.w@,
                    signature@,
                ),
                ciphertext.body.nonce@,
                p@,
            )
        },
        r matches Err(e) ==> e == TLEError::DecryptionFailed,
        forall|p: Seq<u8>|
            spec_decrypt_ok(
                ciphertext.header.u@,
                ciphertext.header.v@,
                ciphertext.header.w@,
                signature@,
            ) && p.len() == ciphertext.body.body@.len() && p.len() <= AES_GCM_MAX_PLAINTEXT
                && ciphertext.body.body@ + ciphertext.body.tag@ == #[trigger] aes_seal(
                spec_decrypt_message(
                    ciphertext.header.u@,
                    ciphertext.header.v@,
                    ciphertext.header.w@,
                    signature@,
                ),
                ciphertext.body.nonce@,
                p,
            ) ==> (r matches Ok(q) && q@ == p),
{
    let mut sig_vec: Vec<u8> = Vec::new();
    sig_vec.extend_from_slice(signature);
    proof {
        assert(sig_vec@ =~= signature@);
    }
    let secret = IBESecret(sig_vec);
    let mut key_arr = match secret.decrypt(&ciphertext.header) {
        Ok(k) => k,
        Err(_) => {
            return Err(TLEError::DecryptionFailed);
        },
    };
    let mut key: Vec<u8> = Vec::new();
    key.extend_from_slice(key_arr.as_slice());
    proof {
        assert(key@ =~= key_arr@);
    }
    crate::utils::wipe_array_32(&mut key_arr);
    let plaintext = match AESGCMBlockCipherProvider::decrypt(&ciphertext.body, key.as_slice()) {
        Some(p) => p,
        None => {
            crate::utils::wipe(&mut key);
            return Err(TLEError::DecryptionFailed);
        },
    };
    crate::utils::wipe(&mut key);
    Ok(plaintext)
}

/// Fixed overhead in bytes of a serialized ciphertext: the compressed
/// point, the two 32-byte pads, the nonce, the tag, and the two 8-byte
/// length prefixes.
pub const SERIALIZED_FIXED_OVERHEAD: usize = 204;

/// The canonical byte form of a ciphertext:
/// `U (96) | V (32) | W (32) | nonce (12) | body_len (8, LE) | body |
///  tag (16) | suite_len (8, LE) | suite`.
pub open spec fn spec_serialize(ct: TLECiphertext) -> Seq<u8> {
    ct.header.u@ + ct.header.v@ + ct.header.w@ + ct.body.nonce@
        + vstd::bytes::spec_u64_to_le_bytes(ct.body.body@.len() as u64) + ct.body.body@
        + ct.body.tag@ + vstd::bytes::spec_u64_to_le_bytes(ct.cipher_suite@.len() as u64)
        + ct.cipher_suite@
}

/// How the canonical byte form of a well-formed ciphertext decomposes: its
/// length, and the position of every field.
pub proof fn lemma_serialize_parts(ct: TLECiphertext)
    requires
        ct.wf(),
    ensures
        ({
            let b = spec_serialize(ct);
            let bl = ct.body.body@.len() as int;
            let sl = ct.cipher_suite@.len() as int;
            &&& b.len() == 204 + bl + sl
            &&& b.subrange(0, 96) == ct.header.u@
            &&& b.subrange(96, 128) == ct.header.v@
            &&& b.subrange(128, 160) == ct.header.w@
            &&& b.subrange(160, 172) == ct.body.nonce@
            &&& b.subrange(172, 180) == vstd::bytes::spec_u64_to_le_bytes(
                ct.body.body@.len() as u64,
            )
            &&& b.subrange(180, 180 + bl) == ct.body.body@
            &&& b.subrange(180 + bl, 196 + bl) == ct.body.tag@
            &&& b.subrange(196 + bl, 204 + bl) == vstd::bytes::spec_u64_to_le_bytes(
                ct.cipher_suite@.len() as u64,
            )
            &&& b.subrange(204 + bl, 204 + bl + sl) == ct.cipher_suite@
        }),
{
    vstd::bytes::lemma_auto_spec_u64_to_from_le_bytes();
    let b = spec_serialize(ct);
    let bl = ct.body.body@.len() as int;
    let sl = ct.cipher_suite@.len() as int;
    assert(b.subrange(0, 96) =~= ct.header.u@);
    assert(b.subrange(96, 128) =~= ct.header.v@);
    assert(b.subrange(128, 160) =~= ct.header.w@);
    assert(b.subrange(160, 172) =~= ct.body.nonce@);
    assert(b.subrange(172, 180) =~= vstd::bytes::spec_u64_to_le_bytes(
        ct.body.body@.len() as u64,
    ));
    assert(b.subrange(180, 180 + bl) =~= ct.body.body@);
    assert(b.subrange(180 + bl, 196 + bl) =~= ct.body.tag@);
    assert(b.subrange(196 + bl, 204 + bl) =~= vstd::bytes::spec_u64_to_le_bytes(
        ct.cipher_suite@.len() as u64,
    ));
    assert(b.subrange(204 + bl, 204 + bl + sl) =~= ct.cipher_suite@);
}

/// Serialization round trip, stated as canonicity: two well-formed
/// ciphertexts with the same byte form agree in every field, so whatever
/// deserialization returns on `serialize(ct)` is `ct` itself.
pub proof fn lemma_serialize_injective(ct1: TLECiphertext, ct2: TLECiphertext)
    requires
        ct1.wf(),
        ct2.wf(),
        spec_serialize(ct1) == spec_serialize(ct2),
    ensures
        ct1.header.u@ == ct2.header.u@,
        ct1.header.v@ == ct2.header.v@,
        ct1.header.w@ == ct2.header.w@,
        ct1.body.nonce@ == ct2.body.nonce@,
        ct1.body.body@ == ct2.body.body@,
        ct1.body.tag@ == ct2.body.tag@,
        ct1.cipher_suite@ == ct2.cipher_suite@,
{
    vstd::bytes::lemma_auto_spec_u64_to_from_le_bytes();
    lemma_serialize_parts(ct1);
    lemma_serialize_parts(ct2);
    let b = spec_serialize(ct1);
    let bl1 = ct1.body.body@.len() as int;
    let bl2 = ct2.body.body@.len() as int;
    // The body-length field is at a fixed offset, and the length prefix is
    // injective, so the bodies have the same length; the rest follows from
    // the field positions.
    assert(vstd::bytes::spec_u64_from_le_bytes(b.subrange(172, 180)) == ct1.body.body@.len()
        as u64);
    assert(vstd::bytes::spec_u64_from_le_bytes(b.subrange(172, 180)) == ct2.body.body@.len()
        as u64);
    assert(bl1 == bl2);
}

/// Round trip of the timelock composition: take a ciphertext whose header
/// encrypts the session key `key` to identity point `q` under the public
/// key `msk * P`, and whose body seals `message` under `key`. Decrypting
/// the header with the extracted secret `d = msk * q` succeeds and yields
/// `key`, and the sealed body is then exactly the seal of `message` under
/// the recovered key — so `tld`'s contract forces it to return `message`.
pub proof fn lemma_tle_round_trip(
    ct: TLECiphertext,
    sigma: Seq<u8>,
    key: Seq<u8>,
    message: Seq<u8>,
    msk: Seq<u8>,
    q: Seq<u8>,
    d: Seq<u8>,
)
    requires
        ct.wf(),
        sigma.len() == 32,
        key.len() == 32,
        ct.header.is_encryption_of(sigma, key, g2_base_mul(msk), q),
        ct.body.is_seal_of(key, message),
        fr_valid(spec_h3(sigma, key)),
        d == g1_mul(q, msk),
        pairs_as_extraction_of(d, q, msk),
        d.len() == SIGNATURE_SERIALIZED_SIZE,
        g1_valid(d),
        g2_valid(ct.header.u@),
    ensures
        spec_decrypt_ok(ct.header.u@, ct.header.v@, ct.header.w@, d),
        spec_decrypt_message(ct.header.u@, ct.header.v@, ct.header.w@, d) == key,
        ct.body.body@ + ct.body.tag@ == aes_seal(
            spec_decrypt_message(ct.header.u@, ct.header.v@, ct.header.w@, d),
            ct.body.nonce@,
            message,
        ),
{
    lemma_ibe_round_trip(sigma, key, msk, q, d);
}

/// Bypass decryption: open the sealed payload directly with the 32-byte
/// session key, without touching the IBE header. This lets the party that
/// encrypted (and kept the session key) recover the payload before the
/// beacon round.
pub fn decrypt_with_session_key(ciphertext: &TLECiphertext, key: &[u8]) -> (r: Result<
    Vec<u8>,
    TLEError,
>)
    requires
        ciphertext.wf(),
        key@.len() == 32,
    ensures
        r matches Ok(p) ==> {
            &&& p@.len() == ciphertext.body.body@.len()
            &&& ciphertext.body.body@ + ciphertext.body.tag@ == aes_seal(
                key@,
                ciphertext.body.nonce@,
                p@,
            )
        },
        r matches Err(e) ==> e == TLEError::DecryptionFailed,
        forall|p: Seq<u8>|
            p.len() == ciphertext.body.body@.len() && p.len() <= AES_GCM_MAX_PLAINTEXT
                && ciphertext.body.body@ + ciphertext.body.tag@ == #[trigger] aes_seal(
                key@,
                ciphertext.body.nonce@,
                p,
            ) ==> (r matches Ok(q) && q@ == p),
{
    match AESGCMBlockCipherProvider::decrypt(&ciphertext.body, key) {
        Some(p) => Ok(p),
        None => Err(TLEError::DecryptionFailed),
    }
}

} // verus!
