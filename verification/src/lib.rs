//! Timelock encryption built from Boneh-Franklin identity-based encryption
//! over BLS12-381 (the drand QuickNet configuration, public keys in G2 and
//! signatures in G1) composed with AES-GCM-256 for the payload.
//!
//! A message is sealed under a fresh 32-byte session key; the session key is
//! encapsulated to a round identity with IBE, so that the beacon's BLS
//! signature on that round releases it.

pub mod api;
pub mod block_ciphers;
pub mod engines;
pub mod ibe;
pub mod tlock;
pub mod utils;

use vstd::prelude::*;

verus! {

/// Length in bytes of the internal message digest and of all 32-byte
/// hash outputs used by the IBE construction.
pub const HASH_LENGTH: usize = 32;

/// The 32-byte Shake128 digest of a byte string. The digest depends on the
/// input alone; the trusted wrapper below pins the name to sha3's Shake128.
pub uninterp spec fn shake128_of(input: Seq<u8>) -> Seq<u8>;

/// The exact byte string absorbed by the message digest: the context, the
/// message length as 8 little-endian bytes, then the message itself.
pub open spec fn spec_message_absorbed(context: Seq<u8>, message: Seq<u8>) -> Seq<u8> {
    context + vstd::bytes::spec_u64_to_le_bytes(message.len() as u64) + message
}

/// The digest stored in a `Message` built from a context and a message.
pub open spec fn spec_message_digest(context: Seq<u8>, message: Seq<u8>) -> Seq<u8> {
    shake128_of(spec_message_absorbed(context, message))
}

/// Relies on sha3::Shake128 (absorb the input, then read 32 bytes of
/// extendable output): a pure function of the input bytes.
#[verifier::external_body]
fn shake128_digest(input: &[u8]) -> (r: [u8; 32])
    ensures
        r@ == shake128_of(input@),
{
    let mut h = sha3::Shake128::default();
    sha3::digest::Update::update(&mut h, input);
    let mut msg = [0u8; 32];
    sha3::digest::XofReader::read(
        &mut sha3::digest::ExtendableOutput::finalize_xof(h),
        &mut msg,
    );
    msg
}

/// Internal message hash type: a domain-separated 32-byte digest of a
/// context and a message, kept together with the concatenation
/// `context ++ message` that hash-to-curve consumes.
#[derive(Debug, Clone)]
pub struct Message(pub [u8; HASH_LENGTH], pub Vec<u8>);

impl Message {
    /// A `Message` is well-formed when its stored digest and payload agree,
    /// i.e. they came from `Message::new` on some context and message.
    pub open spec fn wf_for(&self, context: Seq<u8>, message: Seq<u8>) -> bool {
        &&& self.0@ == spec_message_digest(context, message)
        &&& self.1@ == context + message
    }

    /// Builds the message hash: a Shake128 digest over the context, the
    /// message length, and the message, next to the raw concatenation.
    pub fn new(context: &[u8], message: &[u8]) -> (r: Message)
        ensures
            r.wf_for(context@, message@),
            r.1@ == context@ + message@,
    {
        let l: u64 = message.len() as u64;
        let length_bytes = vstd::bytes::u64_to_le_bytes(l);
        let mut absorbed: Vec<u8> = Vec::new();
        absorbed.extend_from_slice(context);
        absorbed.extend_from_slice(length_bytes.as_slice());
        absorbed.extend_from_slice(message);
        proof {
            assert(absorbed@ =~= spec_message_absorbed(context@, message@));
        }
        let digest = shake128_digest(absorbed.as_slice());
        let mut data: Vec<u8> = Vec::new();
        data.extend_from_slice(context);
        data.extend_from_slice(message);
        proof {
            assert(data@ =~= context@ + message@);
        }
        Message(digest, data)
    }

    /// Hashes the stored `context ++ message` bytes onto the signature
    /// group, giving the compressed form of the resulting G1 point.
    pub fn hash_to_signature_curve(&self) -> (r: Vec<u8>)
        ensures
            r@ == crate::engines::hash_to_g1(self.1@),
            r@.len() == crate::engines::SIGNATURE_SERIALIZED_SIZE,
            crate::engines::g1_valid(r@),
    {
        crate::engines::hash_to_curve_g1(self.1.as_slice())
    }
}

impl PartialEq for Message {
    fn eq(&self, other: &Message) -> (r: bool) {
        crate::utils::bytes_eq(self.0.as_slice(), other.0.as_slice())
            && crate::utils::bytes_eq(self.1.as_slice(), other.1.as_slice())
    }
}

impl vstd::std_specs::cmp::PartialEqSpecImpl for Message {
    open spec fn obeys_eq_spec() -> bool {
        true
    }

    open spec fn eq_spec(&self, other: &Message) -> bool {
        self.0@ == other.0@ && self.1@ == other.1@
    }
}

impl Eq for Message {

}

} // verus!
