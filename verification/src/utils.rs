//! Hash utilities and byte-level helpers shared by the IBE layer: SHA-256,
//! the derived hash functions `h2`, `h4`, and fixed-width XOR.

use vstd::prelude::*;

verus! {

/// The SHA-256 digest of a byte string. The digest is a pure function of the
/// input alone, so it carries a name that the trusted wrapper below pins down.
pub uninterp spec fn sha256_of(b: Seq<u8>) -> Seq<u8>;

/// Byte-wise XOR of the first `n` bytes of two byte strings.
pub open spec fn xor_bytes(a: Seq<u8>, b: Seq<u8>, n: nat) -> Seq<u8>
    recommends
        a.len() >= n,
        b.len() >= n,
{
    Seq::new(n, |i: int| a[i] ^ b[i])
}

/// sha256 hasher
///
/// Relies on sha2::Sha256 (update then finalize): the 32-byte SHA-256 digest
/// of the input, a function of the input bytes alone.
#[verifier::external_body]
pub fn sha256(b: &[u8]) -> (r: Vec<u8>)
    ensures
        r@ == sha256_of(b@),
        r@.len() == 32,
{
    let mut hasher = <sha2::Sha256 as sha2::Digest>::new();
    sha2::Digest::update(&mut hasher, b);
    sha2::Digest::finalize(hasher).to_vec()
}

/// Byte-wise XOR of the `N`-byte prefixes of `a` and `b`.
///
/// Both inputs must hold at least `N` bytes; the result is the byte-wise
/// XOR, whatever chunking an implementation might use internally.
pub fn cross_product_const<const N: usize>(a: &[u8], b: &[u8]) -> (r: [u8; N])
    requires
        a@.len() >= N,
        b@.len() >= N,
    ensures
        r@ == xor_bytes(a@, b@, N as nat),
{
    let mut result: [u8; N] = vstd::array::array_fill_for_copy_types(0u8);
    let mut i: usize = 0;
    while i < N
        invariant
            i <= N,
            a@.len() >= N,
            b@.len() >= N,
            result@.len() == N,
            forall|j: int| 0 <= j < i ==> result@[j] == (a@[j] ^ b@[j]),
        decreases N - i,
    {
        let x: u8 = a[i] ^ b[i];
        result[i] = x;
        i = i + 1;
    }
    proof {
        assert(result@ =~= xor_bytes(a@, b@, N as nat));
    }
    result
}

/// a map from the pairing target group, serialized, to {0, 1}^32
///
/// The caller hands the canonical compressed serialization of a target-group
/// element; the result is its SHA-256 digest.
pub fn h2(g: &[u8]) -> (r: Vec<u8>)
    ensures
        r@ == sha256_of(g@),
        r@.len() == 32,
{
    sha256(g)
}

/// H_4: {0, 1}^n -> {0, 1}^n for n <= 32: the SHA-256 digest of the input,
/// truncated to the input's own length.
pub fn h4(a: &[u8]) -> (r: Vec<u8>)
    requires
        a@.len() <= 32,
    ensures
        r@ == spec_h4(a@),
        r@.len() == a@.len(),
{
    let o = sha256(a);
    let mut r: Vec<u8> = Vec::new();
    let mut i: usize = 0;
    let n: usize = a.len();
    while i < n
        invariant
            i <= n,
            n == a@.len(),
            o@ == sha256_of(a@),
            o@.len() == 32,
            n <= 32,
            r@.len() == i,
            forall|j: int| 0 <= j < i ==> r@[j] == o@[j],
        decreases n - i,
    {
        r.push(o[i]);
        i = i + 1;
    }
    proof {
        assert(r@ =~= sha256_of(a@).take(a@.len() as int));
    }
    r
}

/// What `h3` computes: the SHA-256 digest of `a` followed by `b`, read as a
/// big-endian integer and reduced modulo the scalar group order.
pub open spec fn spec_h3(a: Seq<u8>, b: Seq<u8>) -> Seq<u8> {
    crate::engines::fr_from_be(sha256_of(a + b))
}

/// What `h4` computes on an `n`-byte input: the SHA-256 digest of the input
/// truncated to `n` bytes.
pub open spec fn spec_h4(a: Seq<u8>) -> Seq<u8> {
    sha256_of(a).take(a.len() as int)
}

/// H_3: {0,1}^n x {0,1}^m -> Z_p, the scalar derived from two byte strings:
/// SHA-256 of their concatenation, reduced modulo the group order. The
/// result is returned as a canonical 32-byte little-endian scalar.
pub fn h3(a: &[u8], b: &[u8]) -> (r: Vec<u8>)
    ensures
        r@ == spec_h3(a@, b@),
        r@.len() == 32,
        crate::engines::fr_valid(r@),
{
    let mut input: Vec<u8> = Vec::new();
    input.extend_from_slice(a);
    input.extend_from_slice(b);
    proof {
        assert(input@ =~= a@ + b@);
    }
    let hash = sha256(input.as_slice());
    crate::engines::fr_from_be_bytes_mod_order(hash.as_slice())
}

/// Compares two byte strings for equality.
pub fn bytes_eq(a: &[u8], b: &[u8]) -> (r: bool)
    ensures
        r <==> a@ == b@,
{
    if a.len() != b.len() {
        proof {
            assert(a@ != b@);
        }
        return false;
    }
    let n: usize = a.len();
    let mut i: usize = 0;
    while i < n
        invariant
            i <= n,
            n == a@.len(),
            n == b@.len(),
            forall|j: int| 0 <= j < i ==> a@[j] == b@[j],
        decreases n - i,
    {
        if a[i] != b[i] {
            return false;
        }
        i = i + 1;
    }
    proof {
        assert(a@ =~= b@);
    }
    true
}

/// Relies on rand::rngs::OsRng (try_fill_bytes): on success the buffer
/// holds bytes from the operating system's random source. Nothing is
/// promised of their values; callers must hold for every outcome.
#[verifier::external_body]
pub(crate) fn try_random_bytes(n: usize) -> (r: Option<Vec<u8>>)
    ensures
        r matches Some(v) ==> v@.len() == n,
{
    let mut buf = vec![0u8; n];
    match rand::RngCore::try_fill_bytes(&mut rand::rngs::OsRng, &mut buf) {
        Ok(()) => Some(buf),
        Err(_) => None,
    }
}

/// Overwrites every byte of a secret-bearing buffer with zero.
pub fn wipe(buf: &mut Vec<u8>)
    ensures
        final(buf)@.len() == old(buf)@.len(),
        forall|i: int| 0 <= i < final(buf)@.len() ==> final(buf)@[i] == 0u8,
{
    let n: usize = buf.len();
    let mut i: usize = 0;
    while i < n
        invariant
            i <= n,
            n == buf@.len(),
            forall|j: int| 0 <= j < i ==> buf@[j] == 0u8,
        decreases n - i,
    {
        buf[i] = 0u8;
        i = i + 1;
    }
}

/// Overwrites every byte of a secret-bearing 32-byte array with zero.
pub fn wipe_array_32(buf: &mut [u8; 32])
    ensures
        forall|i: int| 0 <= i < 32 ==> final(buf)@[i] == 0u8,
{
    let mut i: usize = 0;
    while i < 32
        invariant
            i <= 32,
            buf@.len() == 32,
            forall|j: int| 0 <= j < i ==> buf@[j] == 0u8,
        decreases 32 - i,
    {
        buf[i] = 0u8;
        i = i + 1;
    }
}

/// Copies a 32-byte string into a fixed-width array.
pub fn to_array_32(v: &[u8]) -> (r: [u8; 32])
    requires
        v@.len() == 32,
    ensures
        r@ == v@,
{
    let mut result: [u8; 32] = vstd::array::array_fill_for_copy_types(0u8);
    let mut i: usize = 0;
    while i < 32
        invariant
            i <= 32,
            v@.len() == 32,
            result@.len() == 32,
            forall|j: int| 0 <= j < i ==> result@[j] == v@[j],
        decreases 32 - i,
    {
        result[i] = v[i];
        i = i + 1;
    }
    proof {
        assert(result@ =~= v@);
    }
    result
}

/// XOR with the same string twice gives back the original 32-byte string.
pub proof fn lemma_xor_involution(a: Seq<u8>, b: Seq<u8>)
    requires
        a.len() >= 32,
    ensures
        xor_bytes(xor_bytes(a, b, 32), b, 32) == a.take(32),
{
    let x = xor_bytes(xor_bytes(a, b, 32), b, 32);
    assert forall|i: int| 0 <= i < 32 implies x[i] == a[i] by {
        let ai = a[i];
        let bi = b[i];
        assert((ai ^ bi) ^ bi == ai) by (bit_vector);
    }
    assert(x =~= a.take(32));
}

} // verus!
