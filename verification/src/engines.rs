//! The concrete pairing engine for the drand QuickNet beacon: BLS12-381 with
//! public keys in G2 and signatures in G1, RFC 9380 hash-to-curve with the
//! `BLS_SIG_BLS12381G1_XMD:SHA-256_SSWU_RO_NUL_` domain tag.
//!
//! Group elements cross this module's boundary only in canonical compressed
//! form, as plain byte strings: 48 bytes for a G1 point, 96 bytes for a G2
//! point, 32 bytes (little-endian) for a scalar, and the serialized target
//! group element for a pairing value. The arithmetic itself is done by the
//! arkworks crates behind the trusted wrappers below; every contract speaks
//! of the uninterpreted functions that name their results.

use vstd::prelude::*;

use ark_bls12_381::{Bls12_381, Fr, G1Projective, G2Projective};
use ark_ec::hashing::curve_maps::wb::WBMap;
use ark_ec::hashing::map_to_curve_hasher::MapToCurveBasedHasher;
use ark_ec::hashing::HashToCurve;
use ark_ec::pairing::Pairing;
use ark_ec::PrimeGroup;
use ark_ff::field_hashers::DefaultFieldHasher;
use ark_ff::PrimeField;
use ark_serialize::{CanonicalDeserialize, CanonicalSerialize};

verus! {

/// Compressed size in bytes of a signature-group (G1) point.
pub const SIGNATURE_SERIALIZED_SIZE: usize = 48;

/// Compressed size in bytes of a public-key-group (G2) point.
pub const PUBLICKEY_SERIALIZED_SIZE: usize = 96;

/// Size in bytes of a serialized scalar field element (little-endian).
pub const SECRET_KEY_SIZE: usize = 32;

/// Whether a 48-byte string is the canonical compressed form of a point of
/// the signature group (on the curve and in the prime-order subgroup).
pub uninterp spec fn g1_valid(b: Seq<u8>) -> bool;

/// Whether a 96-byte string is the canonical compressed form of a point of
/// the public-key group.
pub uninterp spec fn g2_valid(b: Seq<u8>) -> bool;

/// Whether a 32-byte string is the canonical little-endian form of a scalar
/// field element (an integer below the group order).
pub uninterp spec fn fr_valid(b: Seq<u8>) -> bool;

/// The compressed image of a byte string under RFC 9380 hash-to-curve into
/// the signature group, with this engine's domain tag.
pub uninterp spec fn hash_to_g1(m: Seq<u8>) -> Seq<u8>;

/// Compressed form of the signature-group point `p` multiplied by scalar `s`.
pub uninterp spec fn g1_mul(p: Seq<u8>, s: Seq<u8>) -> Seq<u8>;

/// Compressed form of the public-key-group point `p` multiplied by scalar `s`.
pub uninterp spec fn g2_mul(p: Seq<u8>, s: Seq<u8>) -> Seq<u8>;

/// Compressed form of the public-key-group generator multiplied by scalar `s`.
pub uninterp spec fn g2_base_mul(s: Seq<u8>) -> Seq<u8>;

/// Serialized pairing value `e(q, p)` of a public-key-group point `p` and a
/// signature-group point `q`, both given in compressed form.
pub uninterp spec fn pairing_of(p: Seq<u8>, q: Seq<u8>) -> Seq<u8>;

/// The scalar obtained by reading a byte string as a big-endian integer and
/// reducing it modulo the group order, in canonical little-endian form.
pub uninterp spec fn fr_from_be(h: Seq<u8>) -> Seq<u8>;

/// The pairing law that an extracted identity secret obeys: `d` is the
/// signature-group point `q` multiplied by the master scalar `s`, so for
/// every scalar `t`, pairing the generator multiple `t * P` with `d` gives
/// the same value as pairing `(s * P) * t` with `q` (both are
/// `e(q, P)^(s*t)` by bilinearity).
pub open spec fn pairs_as_extraction_of(d: Seq<u8>, q: Seq<u8>, s: Seq<u8>) -> bool {
    forall|t: Seq<u8>|
        fr_valid(t) ==> #[trigger] pairing_of(g2_base_mul(t), d) == pairing_of(
            g2_mul(g2_base_mul(s), t),
            q,
        )
}

/// Relies on arkworks `MapToCurveBasedHasher` over BLS12-381 G1 (RFC 9380
/// simplified SWU, SHA-256, this engine's domain tag): the image depends on
/// the message alone and is a valid point of the signature group; its
/// compressed form is 48 bytes.
#[verifier::external_body]
pub(crate) fn hash_to_curve_g1(message: &[u8]) -> (r: Vec<u8>)
    ensures
        r@ == hash_to_g1(message@),
        r@.len() == SIGNATURE_SERIALIZED_SIZE,
        g1_valid(r@),
{
    let hasher = MapToCurveBasedHasher::<
        G1Projective,
        DefaultFieldHasher<sha2::Sha256, 128>,
        WBMap<ark_bls12_381::g1::Config>,
    >::new(b"BLS_SIG_BLS12381G1_XMD:SHA-256_SSWU_RO_NUL_")
        .unwrap();
    let p = hasher.hash(message).unwrap();
    let mut out = Vec::new();
    p.serialize_compressed(&mut out).unwrap();
    out
}

/// Relies on `CanonicalDeserialize` for BLS12-381 G1 with full validation:
/// it succeeds exactly on the canonical compressed encodings of points on
/// the curve and in the prime-order subgroup.
#[verifier::external_body]
pub(crate) fn g1_is_valid(b: &[u8]) -> (r: bool)
    requires
        b@.len() == SIGNATURE_SERIALIZED_SIZE,
    ensures
        r <==> g1_valid(b@),
{
    G1Projective::deserialize_compressed(b).is_ok()
}

/// Relies on `CanonicalDeserialize` for BLS12-381 G2 with full validation:
/// it succeeds exactly on the canonical compressed encodings of points on
/// the curve and in the prime-order subgroup.
#[verifier::external_body]
pub(crate) fn g2_is_valid(b: &[u8]) -> (r: bool)
    requires
        b@.len() == PUBLICKEY_SERIALIZED_SIZE,
    ensures
        r <==> g2_valid(b@),
{
    G2Projective::deserialize_compressed(b).is_ok()
}

/// Relies on `CanonicalDeserialize` for the scalar field: it succeeds
/// exactly on 32-byte little-endian encodings of integers below the group
/// order.
#[verifier::external_body]
pub(crate) fn fr_is_valid(b: &[u8]) -> (r: bool)
    requires
        b@.len() == SECRET_KEY_SIZE,
    ensures
        r <==> fr_valid(b@),
{
    Fr::deserialize_compressed(b).is_ok()
}

/// Relies on arkworks scalar multiplication in G1, with serialization of the
/// result in canonical compressed form. The extra clause states pairing
/// bilinearity for the result, as documented for `ark_ec::pairing::Pairing`:
/// `e(t*P, s*q) == e(s*t*P, q)`.
#[verifier::external_body]
pub(crate) fn g1_scalar_mul(p: &[u8], s: &[u8]) -> (r: Vec<u8>)
    requires
        g1_valid(p@),
        fr_valid(s@),
    ensures
        r@ == g1_mul(p@, s@),
        r@.len() == SIGNATURE_SERIALIZED_SIZE,
        g1_valid(r@),
        pairs_as_extraction_of(r@, p@, s@),
{
    let point = G1Projective::deserialize_compressed(p).unwrap();
    let scalar = Fr::deserialize_compressed(s).unwrap();
    let mut out = Vec::new();
    (point * scalar).serialize_compressed(&mut out).unwrap();
    out
}

/// Relies on arkworks scalar multiplication in G2, with serialization of the
/// result in canonical compressed form.
#[verifier::external_body]
pub(crate) fn g2_scalar_mul(p: &[u8], s: &[u8]) -> (r: Vec<u8>)
    requires
        g2_valid(p@),
        fr_valid(s@),
    ensures
        r@ == g2_mul(p@, s@),
        r@.len() == PUBLICKEY_SERIALIZED_SIZE,
        g2_valid(r@),
{
    let point = G2Projective::deserialize_compressed(p).unwrap();
    let scalar = Fr::deserialize_compressed(s).unwrap();
    let mut out = Vec::new();
    (point * scalar).serialize_compressed(&mut out).unwrap();
    out
}

/// Relies on arkworks scalar multiplication of the G2 group generator.
#[verifier::external_body]
pub(crate) fn g2_generator_mul(s: &[u8]) -> (r: Vec<u8>)
    requires
        fr_valid(s@),
    ensures
        r@ == g2_base_mul(s@),
        r@.len() == PUBLICKEY_SERIALIZED_SIZE,
        g2_valid(r@),
{
    let scalar = Fr::deserialize_compressed(s).unwrap();
    let mut out = Vec::new();
    (G2Projective::generator() * scalar).serialize_compressed(&mut out).unwrap();
    out
}

/// Relies on `Bls12_381::pairing`: the Ate pairing of a signature-group
/// point and a public-key-group point, serialized in canonical form. The
/// call deserializes both arguments with full validation, so it succeeds
/// exactly when both encodings are valid.
#[verifier::external_body]
pub(crate) fn compute_pairing(p: &[u8], q: &[u8]) -> (r: Option<Vec<u8>>)
    requires
        p@.len() == PUBLICKEY_SERIALIZED_SIZE,
        q@.len() == SIGNATURE_SERIALIZED_SIZE,
    ensures
        r matches Some(gt) ==> gt@ == pairing_of(p@, q@) && g2_valid(p@) && g1_valid(q@),
        g2_valid(p@) && g1_valid(q@) ==> r is Some,
{
    let pk = G2Projective::deserialize_compressed(p).ok()?;
    let sig = G1Projective::deserialize_compressed(q).ok()?;
    let gt = Bls12_381::pairing(sig, pk);
    let mut out = Vec::new();
    gt.serialize_compressed(&mut out).unwrap();
    Some(out)
}

/// Relies on `PrimeField::from_be_bytes_mod_order`: the scalar read from the
/// input as a big-endian integer modulo the group order, a function of the
/// input alone, serialized in canonical (hence valid) little-endian form.
#[verifier::external_body]
pub(crate) fn fr_from_be_bytes_mod_order(h: &[u8]) -> (r: Vec<u8>)
    ensures
        r@ == fr_from_be(h@),
        r@.len() == SECRET_KEY_SIZE,
        fr_valid(r@),
{
    let scalar = Fr::from_be_bytes_mod_order(h);
    let mut out = Vec::new();
    scalar.serialize_compressed(&mut out).unwrap();
    out
}

} // verus!
