//! Authenticated symmetric encryption for the payload: AES-GCM-256 with a
//! random 96-bit nonce and empty associated data.
//!
//! The AEAD computation itself is done by the aes-gcm crate behind the two
//! trusted wrappers below; `aes_seal` names its (deterministic)
//! ciphertext-and-tag output. The GCM plaintext bound `P_MAX = 2^36` bytes
//! decides when sealing succeeds.

use vstd::prelude::*;

verus! {

/// Size in bytes of the AES-GCM nonce (initialization vector).
pub const AES_GCM_IV_SIZE: usize = 12;

/// Size in bytes of the AES-GCM authentication tag.
pub const AES_GCM_TAG_SIZE: usize = 16;

/// The largest plaintext AES-GCM accepts, in bytes (2^36).
pub const AES_GCM_MAX_PLAINTEXT: u64 = 68719476736;

/// The ciphertext-and-tag that AES-GCM-256 produces from a 32-byte key, a
/// 12-byte nonce and a plaintext, with empty associated data: the sealed
/// body followed by the 16-byte tag. A pure function of its arguments.
pub uninterp spec fn aes_seal(key: Seq<u8>, nonce: Seq<u8>, pt: Seq<u8>) -> Seq<u8>;

/// The output of an AES-GCM seal: nonce, sealed body, authentication tag.
#[derive(Debug, Clone)]
pub struct AESOutput {
    /// The 12-byte nonce the body was sealed under.
    pub nonce: Vec<u8>,
    /// The sealed payload, as long as the plaintext.
    pub body: Vec<u8>,
    /// The 16-byte authentication tag.
    pub tag: Vec<u8>,
}

impl AESOutput {
    /// Field widths of a well-formed output.
    pub open spec fn wf(&self) -> bool {
        &&& self.nonce@.len() == AES_GCM_IV_SIZE
        &&& self.tag@.len() == AES_GCM_TAG_SIZE
    }

    /// Whether this output is exactly the seal of `pt` under `key` and its
    /// own nonce.
    pub open spec fn is_seal_of(&self, key: Seq<u8>, pt: Seq<u8>) -> bool {
        &&& self.wf()
        &&& self.body@.len() == pt.len()
        &&& self.body@ + self.tag@ == aes_seal(key, self.nonce@, pt)
    }
}

impl PartialEq for AESOutput {
    fn eq(&self, other: &AESOutput) -> (r: bool) {
        crate::utils::bytes_eq(self.nonce.as_slice(), other.nonce.as_slice())
            && crate::utils::bytes_eq(self.body.as_slice(), other.body.as_slice())
            && crate::utils::bytes_eq(self.tag.as_slice(), other.tag.as_slice())
    }
}

impl vstd::std_specs::cmp::PartialEqSpecImpl for AESOutput {
    open spec fn obeys_eq_spec() -> bool {
        true
    }

    open spec fn eq_spec(&self, other: &AESOutput) -> bool {
        self.nonce@ == other.nonce@ && self.body@ == other.body@ && self.tag@ == other.tag@
    }
}

impl Eq for AESOutput {

}

/// Relies on aes_gcm::Aes256Gcm (AEAD encrypt, empty associated data): the
/// result is the sealed body with the 16-byte tag appended, a function of
/// key, nonce and plaintext alone; the call succeeds exactly when the
/// plaintext is at most `P_MAX` = 2^36 bytes.
#[verifier::external_body]
fn aes_gcm_encrypt(key: &[u8], nonce: &[u8], message: &[u8]) -> (r: Option<Vec<u8>>)
    requires
        key@.len() == 32,
        nonce@.len() == AES_GCM_IV_SIZE,
    ensures
        r matches Some(c) ==> c@ == aes_seal(key@, nonce@, message@) && c@.len() == message@.len()
            + AES_GCM_TAG_SIZE,
        message@.len() <= AES_GCM_MAX_PLAINTEXT ==> r is Some,
{
    let cipher = <aes_gcm::Aes256Gcm as aes_gcm::KeyInit>::new_from_slice(key).unwrap();
    let n = aes_gcm::aead::generic_array::GenericArray::from_slice(nonce);
    aes_gcm::aead::Aead::encrypt(&cipher, n, message).ok()
}

/// What opening promises: every plaintext that seals to `ct` under `key`
/// and `nonce` (there is at most one, since sealing is injective for a
/// fixed key, nonce and length) is held by the result `r`.
pub open spec fn opens_to_any_preimage(
    r: Option<Vec<u8>>,
    key: Seq<u8>,
    nonce: Seq<u8>,
    ct: Seq<u8>,
) -> bool {
    forall|p: Seq<u8>|
        p.len() + AES_GCM_TAG_SIZE == ct.len() && p.len() <= AES_GCM_MAX_PLAINTEXT && ct
            == #[trigger] aes_seal(key, nonce, p) ==> (r matches Some(q) && q@ == p)
}

/// Relies on aes_gcm::Aes256Gcm (AEAD decrypt, empty associated data): on
/// success the result is the unique plaintext whose seal under this key and
/// nonce is the given body-and-tag; and whenever such a plaintext exists
/// (within the GCM length bound), the tag verifies and it is returned.
#[verifier::external_body]
fn aes_gcm_decrypt(key: &[u8], nonce: &[u8], body_and_tag: &[u8]) -> (r: Option<Vec<u8>>)
    requires
        key@.len() == 32,
        nonce@.len() == AES_GCM_IV_SIZE,
    ensures
        r matches Some(p) ==> body_and_tag@ == aes_seal(key@, nonce@, p@) && p@.len()
            + AES_GCM_TAG_SIZE == body_and_tag@.len(),
        opens_to_any_preimage(r, key@, nonce@, body_and_tag@),
{
    let cipher = <aes_gcm::Aes256Gcm as aes_gcm::KeyInit>::new_from_slice(key).unwrap();
    let n = aes_gcm::aead::generic_array::GenericArray::from_slice(nonce);
    aes_gcm::aead::Aead::decrypt(&cipher, n, body_and_tag).ok()
}

/// AES-GCM-256 as the block cipher provider of the timelock composition.
pub struct AESGCMBlockCipherProvider;

impl AESGCMBlockCipherProvider {
    /// Seals `message` under `key` with a caller-supplied nonce; everything
    /// after the nonce sampling is deterministic. Fails only when the
    /// plaintext exceeds the GCM length bound.
    pub fn encrypt_with_nonce(message: &[u8], key: &[u8], nonce: &[u8]) -> (r: Option<AESOutput>)
        requires
            key@.len() == 32,
            nonce@.len() == AES_GCM_IV_SIZE,
        ensures
            r matches Some(out) ==> out.is_seal_of(key@, message@) && out.nonce@ == nonce@,
            message@.len() <= AES_GCM_MAX_PLAINTEXT ==> r is Some,
    {
        let sealed = match aes_gcm_encrypt(key, nonce, message) {
            Some(c) => c,
            None => {
                return None;
            },
        };
        let split_at: usize = sealed.len() - AES_GCM_TAG_SIZE;
        let mut body: Vec<u8> = Vec::new();
        let mut tag: Vec<u8> = Vec::new();
        let mut i: usize = 0;
        while i < split_at
            invariant
                i <= split_at,
                split_at <= sealed@.len(),
                body@ == sealed@.take(i as int),
            decreases split_at - i,
        {
            body.push(sealed[i]);
            i = i + 1;
        }
        while i < sealed.len()
            invariant
                split_at <= i <= sealed@.len(),
                tag@ == sealed@.subrange(split_at as int, i as int),
            decreases sealed@.len() - i,
        {
            tag.push(sealed[i]);
            i = i + 1;
        }
        let mut nonce_vec: Vec<u8> = Vec::new();
        nonce_vec.extend_from_slice(nonce);
        proof {
            assert(nonce_vec@ =~= nonce@);
            assert(body@ + tag@ =~= sealed@);
        }
        Some(AESOutput { nonce: nonce_vec, body, tag })
    }

    /// Seals `message` under `key` with a fresh random 12-byte nonce.
    /// Fails when the random source fails or the plaintext exceeds the GCM
    /// length bound.
    pub fn encrypt(message: &[u8], key: &[u8]) -> (r: Option<AESOutput>)
        requires
            key@.len() == 32,
        ensures
            r matches Some(out) ==> out.is_seal_of(key@, message@),
    {
        let nonce = match crate::utils::try_random_bytes(AES_GCM_IV_SIZE) {
            Some(n) => n,
            None => {
                return None;
            },
        };
        Self::encrypt_with_nonce(message, key, nonce.as_slice())
    }

    /// Opens a sealed output under `key`: verifies the tag and returns the
    /// plaintext. Returns `None` on any authentication failure; whenever
    /// the output really is a seal under this key (within the GCM length
    /// bound), opening succeeds with the sealed plaintext.
    pub fn decrypt(ciphertext: &AESOutput, key: &[u8]) -> (r: Option<Vec<u8>>)
        requires
            ciphertext.wf(),
            key@.len() == 32,
        ensures
            r matches Some(p) ==> ciphertext.body@ + ciphertext.tag@ == aes_seal(
                key@,
                ciphertext.nonce@,
                p@,
            ) && p@.len() == ciphertext.body@.len(),
            forall|p: Seq<u8>|
                p.len() == ciphertext.body@.len() && p.len() <= AES_GCM_MAX_PLAINTEXT
                    && ciphertext.body@ + ciphertext.tag@ == #[trigger] aes_seal(
                    key@,
                    ciphertext.nonce@,
                    p,
                ) ==> (r matches Some(q) && q@ == p),
    {
        let mut body_and_tag: Vec<u8> = Vec::new();
        body_and_tag.extend_from_slice(ciphertext.body.as_slice());
        body_and_tag.extend_from_slice(ciphertext.tag.as_slice());
        proof {
            assert(body_and_tag@ =~= ciphertext.body@ + ciphertext.tag@);
        }
        aes_gcm_decrypt(key, ciphertext.nonce.as_slice(), body_and_tag.as_slice())
    }
}

} // verus!
