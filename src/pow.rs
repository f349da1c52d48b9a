//! BLAKE3 hashing and the proof-of-work nonce search built on it.
use vstd::prelude::*;

verus! {

/// Length of a BLAKE3 digest.
pub const DIGEST_LEN: usize = 32;

/// The BLAKE3 digest (32 bytes) of `input`.
pub uninterp spec fn blake3_digest(input: Seq<u8>) -> Seq<u8>;

/// Relies on `blake3::hash`: the standard 32-byte BLAKE3 digest of the input.
#[verifier::external_body]
fn blake3_of(input: &[u8]) -> (r: Vec<u8>)
    ensures
        r@ == blake3_digest(input@),
        r@.len() == DIGEST_LEN,
{
    blake3::hash(input).as_bytes().to_vec()
}

/// The little-endian bytes of `n`.
pub open spec fn le_bytes(n: u32) -> Seq<u8> {
    seq![n as u8, (n >> 8u32) as u8, (n >> 16u32) as u8, (n >> 24u32) as u8]
}

/// The number that the first four bytes of `b` encode, least significant first.
pub open spec fn le_u32(b: Seq<u8>) -> u32 {
    (b[0] as u32) | ((b[1] as u32) << 8u32) | ((b[2] as u32) << 16u32) | ((b[3] as u32) << 24u32)
}

/// The work value of `nonce` for `header`: the first four digest bytes of
/// `header || nonce`, read little-endian.
pub open spec fn work_value(header: Seq<u8>, nonce: u32) -> u32 {
    le_u32(blake3_digest(header + le_bytes(nonce)))
}

/// Computes the standard BLAKE3 hash (32 bytes) of `input`.
pub fn blake3_hash(input: &[u8]) -> (r: Vec<u8>)
    ensures
        r@ == blake3_digest(input@),
        r@.len() == DIGEST_LEN,
{
    blake3_of(input)
}

/// The work value of `nonce` for `header`.
fn work_value_of(header: &[u8], nonce: u32) -> (r: u32)
    ensures
        r == work_value(header@, nonce),
{
    let mut data: Vec<u8> = Vec::new();
    data.extend_from_slice(header);
    data.push(nonce as u8);
    data.push((nonce >> 8u32) as u8);
    data.push((nonce >> 16u32) as u8);
    data.push((nonce >> 24u32) as u8);
    assert(data@ =~= header@ + le_bytes(nonce));
    let digest = blake3_of(data.as_slice());
    (digest[0] as u32) | ((digest[1] as u32) << 8u32) | ((digest[2] as u32) << 16u32) | ((
    digest[3] as u32) << 24u32)
}

/// Finds the least nonce below `u32::MAX` whose work value for `header` is below
/// `difficulty`, or `None` where there is none.
pub fn blake3_pow(header: &[u8], difficulty: u32) -> (r: Option<u32>)
    ensures
        r matches Some(n) ==> n < u32::MAX && work_value(header@, n) < difficulty && forall|
            m: u32,
        | m < n ==> work_value(header@, m) >= difficulty,
        r is None ==> forall|m: u32| m < u32::MAX ==> work_value(header@, m) >= difficulty,
{
    let mut nonce: u32 = 0;
    while nonce < u32::MAX
        invariant
            forall|m: u32| m < nonce ==> work_value(header@, m) >= difficulty,
        decreases u32::MAX - nonce,
    {
        if work_value_of(header, nonce) < difficulty {
            return Some(nonce);
        }
        nonce += 1;
    }
    None
}

} // verus!
