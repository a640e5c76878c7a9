//! Boneh-Franklin FullIdent identity-based encryption.
//!
//! An `Identity` hashes to a point `Q_id` of the signature group; the IBE
//! secret for it is `msk * Q_id`, which for a drand round identity is the
//! beacon's BLS signature on that round. `encrypt` seals a 32-byte string to
//! an identity under the beacon's public key; `decrypt` under the extracted
//! secret recovers it and authenticates the ciphertext by re-deriving the
//! ephemeral scalar (the Fujisaki-Okamoto check `U == rP`).

use vstd::prelude::*;

use crate::engines::{
    fr_valid, g1_mul, g1_valid, g2_base_mul, g2_mul, g2_valid, hash_to_g1, pairing_of,
    pairs_as_extraction_of, PUBLICKEY_SERIALIZED_SIZE, SIGNATURE_SERIALIZED_SIZE,
};
use crate::utils::{sha256_of, spec_h3, spec_h4, xor_bytes};
use crate::Message;

verus! {

/// Represents a ciphertext in the BF-IBE FullIdent scheme. The point `U` is
/// carried in compressed form; `V` and `W` are 32-byte one-time pads.
#[derive(Debug, Clone)]
pub struct Ciphertext {
    /// U = rP, compressed (96 bytes)
    pub u: Vec<u8>,
    /// V = sigma (+) H_2(g_id^r)
    pub v: Vec<u8>,
    /// W = message (+) H_4(sigma)
    pub w: Vec<u8>,
}

#[derive(Debug, Clone, PartialEq, Eq, Structural)]
pub enum IbeError {
    DecryptionFailed,
}

#[derive(Debug, Clone, PartialEq, Eq, Structural)]
pub enum InputError {
    InvalidLength,
}

/// A 32-byte IBE plaintext.
#[derive(Debug, Clone)]
pub struct Input {
    data: Vec<u8>,
}

impl View for Input {
    type V = Seq<u8>;

    closed spec fn view(&self) -> Seq<u8> {
        self.data@
    }
}

impl Input {
    /// An `Input` always holds exactly 32 bytes.
    pub open spec fn wf(&self) -> bool {
        self@.len() == 32
    }

    /// Wraps a 32-byte string as an IBE plaintext.
    pub fn new(data: [u8; 32]) -> (r: Result<Self, InputError>)
        ensures
            r matches Ok(inp) && inp@ == data@ && inp.wf(),
    {
        let mut v: Vec<u8> = Vec::new();
        v.extend_from_slice(data.as_slice());
        proof {
            assert(v@ =~= data@);
        }
        Ok(Input { data: v })
    }

    /// The raw bytes of the plaintext.
    pub fn as_bytes(&self) -> (r: &[u8])
        ensures
            r@ == self@,
    {
        self.data.as_slice()
    }

    /// Overwrites the held plaintext with zeros.
    pub fn wipe(&mut self)
        ensures
            final(self)@.len() == old(self)@.len(),
            forall|i: int| 0 <= i < final(self)@.len() ==> final(self)@[i] == 0u8,
    {
        crate::utils::wipe(&mut self.data);
    }
}

/// A type to represent an IBE identity (for which we will encrypt messages).
#[derive(Debug, Clone)]
pub struct Identity(pub Message);

/// The output of the IBE extract algorithm: a signature-group point in
/// compressed form (a BLS signature on the identity).
#[derive(Debug, Clone)]
pub struct IBESecret(pub Vec<u8>);

impl Ciphertext {
    /// Field widths of a well-formed ciphertext.
    pub open spec fn wf(&self) -> bool {
        &&& self.u@.len() == PUBLICKEY_SERIALIZED_SIZE
        &&& self.v@.len() == 32
        &&& self.w@.len() == 32
    }

    /// Whether this ciphertext is exactly the encryption of `m` under the
    /// commitment opening `sigma`, public key `p_pub`, and identity point
    /// `qid`.
    pub open spec fn is_encryption_of(
        &self,
        sigma: Seq<u8>,
        m: Seq<u8>,
        p_pub: Seq<u8>,
        qid: Seq<u8>,
    ) -> bool {
        &&& self.u@ == spec_encrypt_u(sigma, m)
        &&& self.v@ == spec_encrypt_v(sigma, m, p_pub, qid)
        &&& self.w@ == spec_encrypt_w(sigma, m)
    }
}

impl PartialEq for Ciphertext {
    fn eq(&self, other: &Ciphertext) -> (r: bool) {
        crate::utils::bytes_eq(self.u.as_slice(), other.u.as_slice())
            && crate::utils::bytes_eq(self.v.as_slice(), other.v.as_slice())
            && crate::utils::bytes_eq(self.w.as_slice(), other.w.as_slice())
    }
}

impl vstd::std_specs::cmp::PartialEqSpecImpl for Ciphertext {
    open spec fn obeys_eq_spec() -> bool {
        true
    }

    open spec fn eq_spec(&self, other: &Ciphertext) -> bool {
        self.u@ == other.u@ && self.v@ == other.v@ && self.w@ == other.w@
    }
}

impl Eq for Ciphertext {

}

/// `U` of an encryption: the generator multiple `r * P` for the ephemeral
/// scalar `r = H3(sigma, m)`.
pub open spec fn spec_encrypt_u(sigma: Seq<u8>, m: Seq<u8>) -> Seq<u8> {
    g2_base_mul(spec_h3(sigma, m))
}

/// The pairing value masked into `V`: `e(r * p_pub, Q_id)`.
pub open spec fn spec_encrypt_gid(sigma: Seq<u8>, m: Seq<u8>, p_pub: Seq<u8>, qid: Seq<u8>) -> Seq<
    u8,
> {
    pairing_of(g2_mul(p_pub, spec_h3(sigma, m)), qid)
}

/// `V` of an encryption: `sigma (+) H2(e(r * p_pub, Q_id))`.
pub open spec fn spec_encrypt_v(sigma: Seq<u8>, m: Seq<u8>, p_pub: Seq<u8>, qid: Seq<u8>) -> Seq<
    u8,
> {
    xor_bytes(sigma, sha256_of(spec_encrypt_gid(sigma, m, p_pub, qid)), 32)
}

/// `W` of an encryption: `m (+) H4(sigma)`.
pub open spec fn spec_encrypt_w(sigma: Seq<u8>, m: Seq<u8>) -> Seq<u8> {
    xor_bytes(m, spec_h4(sigma), 32)
}

/// The commitment opening a decryption recovers: `V (+) H2(e(U, d_id))`.
pub open spec fn spec_decrypt_sigma(u: Seq<u8>, v: Seq<u8>, d: Seq<u8>) -> Seq<u8> {
    xor_bytes(v, sha256_of(pairing_of(u, d)), 32)
}

/// The message a decryption recovers: `W (+) H4(sigma')`.
pub open spec fn spec_decrypt_message(u: Seq<u8>, v: Seq<u8>, w: Seq<u8>, d: Seq<u8>) -> Seq<u8> {
    xor_bytes(w, spec_h4(spec_decrypt_sigma(u, v, d)), 32)
}

/// When decryption under secret `d` succeeds on `(u, v, w)`: both points
/// must deserialize, and the Fujisaki-Okamoto check `U == r'P` must pass
/// for the re-derived scalar `r' = H3(sigma', m')`.
pub open spec fn spec_decrypt_ok(u: Seq<u8>, v: Seq<u8>, w: Seq<u8>, d: Seq<u8>) -> bool {
    let sigma = spec_decrypt_sigma(u, v, d);
    let m = spec_decrypt_message(u, v, w, d);
    &&& d.len() == SIGNATURE_SERIALIZED_SIZE
    &&& g1_valid(d)
    &&& g2_valid(u)
    &&& u == g2_base_mul(spec_h3(sigma, m))
}

impl Identity {
    /// construct a new identity from a context and an identity byte string
    pub fn new(ctx: &[u8], identity: &[u8]) -> (r: Self)
        ensures
            r.0.wf_for(ctx@, identity@),
            r.0.1@ == ctx@ + identity@,
    {
        Identity(Message::new(ctx, identity))
    }

    /// The identity's public key: the hash-to-curve image of its bytes in
    /// the signature group.
    pub open spec fn spec_public(&self) -> Seq<u8> {
        hash_to_g1(self.0.1@)
    }

    /// Derive the public key for this identity (hash to G1), compressed.
    pub fn public(&self) -> (r: Vec<u8>)
        ensures
            r@ == self.spec_public(),
            r@.len() == SIGNATURE_SERIALIZED_SIZE,
            g1_valid(r@),
    {
        self.0.hash_to_signature_curve()
    }

    /// The IBE extract function on a given master secret: `msk * Q_id`.
    /// Returns `None` when the 32 bytes are not a canonical scalar.
    pub fn extract(&self, sk: &[u8]) -> (r: Option<IBESecret>)
        ensures
            r is Some <==> sk@.len() == 32 && fr_valid(sk@),
            r matches Some(d) ==> {
                &&& d.0@ == g1_mul(self.spec_public(), sk@)
                &&& d.0@.len() == SIGNATURE_SERIALIZED_SIZE
                &&& g1_valid(d.0@)
                &&& pairs_as_extraction_of(d.0@, self.spec_public(), sk@)
            },
    {
        if sk.len() != 32 {
            return None;
        }
        if !crate::engines::fr_is_valid(sk) {
            return None;
        }
        let q = self.public();
        Some(IBESecret(crate::engines::g1_scalar_mul(q.as_slice(), sk)))
    }

    /// BF-IBE encryption with a caller-supplied 32-byte commitment opening
    /// `sigma`; everything after the sampling of `sigma` is deterministic.
    ///
    /// C = <U, V, W> = <rP, sigma (+) H_2(g_id^r), message (+) H_4(sigma)>
    /// where r = H3(sigma, message) and g_id = e(p_pub, Q_id).
    pub fn encrypt_with_sigma(&self, message: &Input, p_pub: &[u8], sigma: &[u8]) -> (r:
        Ciphertext)
        requires
            message.wf(),
            p_pub@.len() == PUBLICKEY_SERIALIZED_SIZE,
            g2_valid(p_pub@),
            sigma@.len() == 32,
        ensures
            r.wf(),
            r.is_encryption_of(sigma@, message@, p_pub@, self.spec_public()),
            g2_valid(r.u@),
            fr_valid(spec_h3(sigma@, message@)),
    {
        let bytes = message.as_bytes();
        // r = H3(sigma, message)
        let mut scalar = crate::utils::h3(sigma, bytes);
        // U = rP
        let u = crate::engines::g2_generator_mul(scalar.as_slice());
        // e(r * P_pub, Q_id)
        let r_pub = crate::engines::g2_scalar_mul(p_pub, scalar.as_slice());
        let qid = self.public();
        let g_id = match crate::engines::compute_pairing(r_pub.as_slice(), qid.as_slice()) {
            Some(gt) => gt,
            None => {
                proof {
                    assert(false);
                }
                vstd::pervasive::unreached()
            },
        };
        // sigma (+) H2(e(r * P_pub, Q_id))
        let v_rhs = crate::utils::h2(g_id.as_slice());
        let v = crate::utils::cross_product_const::<32>(sigma, v_rhs.as_slice());
        // message (+) H4(sigma)
        let w_rhs = crate::utils::h4(sigma);
        let w = crate::utils::cross_product_const::<32>(bytes, w_rhs.as_slice());
        let mut v_vec: Vec<u8> = Vec::new();
        v_vec.extend_from_slice(v.as_slice());
        let mut w_vec: Vec<u8> = Vec::new();
        w_vec.extend_from_slice(w.as_slice());
        // The ephemeral scalar is secret-bearing: clear it before returning.
        crate::utils::wipe(&mut scalar);
        proof {
            assert(sigma@.take(32) =~= sigma@);
            assert(message@.take(32) =~= message@);
            assert(v_vec@ =~= v@);
            assert(w_vec@ =~= w@);
        }
        Ciphertext { u, v: v_vec, w: w_vec }
    }

    /// BF-IBE encryption: samples the 32-byte commitment opening `sigma`
    /// from the operating system's random source, then encrypts as
    /// `encrypt_with_sigma` does. The opening is wiped before returning.
    /// Returns `None` only if the random source fails.
    pub fn encrypt(&self, message: &Input, p_pub: &[u8]) -> (r: Option<Ciphertext>)
        requires
            message.wf(),
            p_pub@.len() == PUBLICKEY_SERIALIZED_SIZE,
            g2_valid(p_pub@),
        ensures
            r matches Some(ct) ==> {
                &&& ct.wf()
                &&& g2_valid(ct.u@)
                &&& exists|sigma: Seq<u8>|
                    sigma.len() == 32 && #[trigger] ct.is_encryption_of(
                        sigma,
                        message@,
                        p_pub@,
                        self.spec_public(),
                    ) && fr_valid(spec_h3(sigma, message@))
            },
    {
        let mut sigma = match crate::utils::try_random_bytes(32) {
            Some(s) => s,
            None => {
                return None;
            },
        };
        let ct = self.encrypt_with_sigma(message, p_pub, sigma.as_slice());
        let ghost sampled = sigma@;
        crate::utils::wipe(&mut sigma);
        proof {
            assert(sampled.len() == 32 && ct.is_encryption_of(
                sampled,
                message@,
                p_pub@,
                self.spec_public(),
            ));
        }
        Some(ct)
    }
}

impl IBESecret {
    /// BF-IBE decryption of a ciphertext C = <U, V, W> under this secret.
    ///
    /// Recovers `sigma' = V (+) H2(e(U, d_id))` and `m' = W (+) H4(sigma')`,
    /// then re-derives `r' = H3(sigma', m')` and accepts only if `U == r'P`.
    /// Any deserialization or equality failure is the one indistinguishable
    /// `DecryptionFailed`.
    pub fn decrypt(&self, ciphertext: &Ciphertext) -> (r: Result<[u8; 32], IbeError>)
        requires
            ciphertext.wf(),
        ensures
            r matches Ok(m) ==> {
                &&& spec_decrypt_ok(ciphertext.u@, ciphertext.v@, ciphertext.w@, self.0@)
                &&& m@ == spec_decrypt_message(ciphertext.u@, ciphertext.v@, ciphertext.w@, self.0@)
            },
            r is Err <==> !spec_decrypt_ok(ciphertext.u@, ciphertext.v@, ciphertext.w@, self.0@),
            r matches Err(e) ==> e == IbeError::DecryptionFailed,
    {
        if self.0.len() != SIGNATURE_SERIALIZED_SIZE {
            return Err(IbeError::DecryptionFailed);
        }
        // sigma' = V (+) H2(e(U, d_id))
        let g_id = match crate::engines::compute_pairing(
            ciphertext.u.as_slice(),
            self.0.as_slice(),
        ) {
            Some(gt) => gt,
            None => {
                return Err(IbeError::DecryptionFailed);
            },
        };
        let sigma_rhs = crate::utils::h2(g_id.as_slice());
        let sigma = crate::utils::cross_product_const::<32>(
            ciphertext.v.as_slice(),
            sigma_rhs.as_slice(),
        );
        // m' = W (+) H4(sigma')
        let m_rhs = crate::utils::h4(sigma.as_slice());
        let m = crate::utils::cross_product_const::<32>(
            ciphertext.w.as_slice(),
            m_rhs.as_slice(),
        );
        proof {
            assert(ciphertext.v@.take(32) =~= ciphertext.v@);
            assert(ciphertext.w@.take(32) =~= ciphertext.w@);
        }
        // check: U == r'P for r' = H3(sigma', m')
        let mut scalar = crate::utils::h3(sigma.as_slice(), m.as_slice());
        let u_check = crate::engines::g2_generator_mul(scalar.as_slice());
        // The recovered opening and re-derived scalar are secret-bearing:
        // clear them on both exit paths.
        let mut sigma = sigma;
        crate::utils::wipe_array_32(&mut sigma);
        crate::utils::wipe(&mut scalar);
        if !crate::utils::bytes_eq(u_check.as_slice(), ciphertext.u.as_slice()) {
            return Err(IbeError::DecryptionFailed);
        }
        Ok(m)
    }
}

/// Round trip of the Boneh-Franklin scheme: for every 32-byte message `m`
/// and opening `sigma`, and every identity point `q` with master scalar
/// `msk`, decrypting the encryption of `m` under `p_pub = msk * P` with the
/// extracted secret `d = msk * q` recovers `sigma` and `m`, and the
/// authenticity check accepts.
pub proof fn lemma_ibe_round_trip(
    sigma: Seq<u8>,
    m: Seq<u8>,
    msk: Seq<u8>,
    q: Seq<u8>,
    d: Seq<u8>,
)
    requires
        sigma.len() == 32,
        m.len() == 32,
        fr_valid(spec_h3(sigma, m)),
        d == g1_mul(q, msk),
        pairs_as_extraction_of(d, q, msk),
        d.len() == SIGNATURE_SERIALIZED_SIZE,
        g1_valid(d),
        g2_valid(spec_encrypt_u(sigma, m)),
    ensures
        ({
            let u = spec_encrypt_u(sigma, m);
            let v = spec_encrypt_v(sigma, m, g2_base_mul(msk), q);
            let w = spec_encrypt_w(sigma, m);
            &&& spec_decrypt_sigma(u, v, d) == sigma
            &&& spec_decrypt_message(u, v, w, d) == m
            &&& spec_decrypt_ok(u, v, w, d)
        }),
{
    let r = spec_h3(sigma, m);
    let u = spec_encrypt_u(sigma, m);
    let v = spec_encrypt_v(sigma, m, g2_base_mul(msk), q);
    let w = spec_encrypt_w(sigma, m);
    // Bilinearity: e(U, d) == e(r * (msk * P), q), the value masked into V.
    assert(pairing_of(g2_base_mul(r), d) == pairing_of(g2_mul(g2_base_mul(msk), r), q));
    // sigma' == sigma: the same pad is applied twice.
    crate::utils::lemma_xor_involution(sigma, sha256_of(spec_encrypt_gid(sigma, m, g2_base_mul(msk), q)));
    assert(sigma.take(32) =~= sigma);
    assert(spec_decrypt_sigma(u, v, d) == sigma);
    // m' == m likewise.
    crate::utils::lemma_xor_involution(m, spec_h4(sigma));
    assert(m.take(32) =~= m);
    assert(spec_decrypt_message(u, v, w, d) == m);
}

} // verus!
