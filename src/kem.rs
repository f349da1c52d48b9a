//! Kyber768 key encapsulation, held as plain bytes.
//!
//! Keys, ciphertexts and shared secrets travel through the library as byte
//! vectors of the scheme's fixed lengths; the scheme's own types appear only at
//! the calls into it.
use pqcrypto_kyber::kyber768;
use pqcrypto_traits::kem::{Ciphertext as _, PublicKey as _, SecretKey as _, SharedSecret as _};
use vstd::prelude::*;

verus! {

/// Length of a Kyber768 public key.
pub const PUBLIC_KEY_BYTES: usize = 1184;

/// Length of a Kyber768 secret key.
pub const SECRET_KEY_BYTES: usize = 2400;

/// Length of a Kyber768 ciphertext.
pub const CIPHERTEXT_BYTES: usize = 1088;

/// Length of a Kyber768 shared secret.
pub const SHARED_SECRET_BYTES: usize = 32;

/// The shared secret that Kyber768 decapsulation of `ciphertext` with
/// `secret_key` yields.
pub uninterp spec fn kyber_decapsulated(ciphertext: Seq<u8>, secret_key: Seq<u8>) -> Seq<u8>;

/// Whether `public_key` and `secret_key` are the two halves of one Kyber768
/// keypair that `kyber768::keypair` generated.
pub uninterp spec fn kyber_pair(public_key: Seq<u8>, secret_key: Seq<u8>) -> bool;

/// A ciphertext and shared secret that encapsulation to `public_key` produced:
/// decapsulating the ciphertext with the matching secret key gives the secret.
pub open spec fn encapsulates_to(public_key: Seq<u8>, ciphertext: Seq<u8>, secret: Seq<u8>) -> bool {
    forall|sk: Seq<u8>|
        #[trigger] kyber_pair(public_key, sk) ==> kyber_decapsulated(ciphertext, sk) == secret
}

/// Relies on `kyber768::PublicKey::from_bytes`: it accepts exactly the byte
/// strings of the public-key length.
#[verifier::external_body]
pub(crate) fn public_key_decodes(bytes: &[u8]) -> (r: bool)
    ensures
        r == (bytes@.len() == PUBLIC_KEY_BYTES),
{
    kyber768::PublicKey::from_bytes(bytes).is_ok()
}

/// Relies on `kyber768::SecretKey::from_bytes`: it accepts exactly the byte
/// strings of the secret-key length.
#[verifier::external_body]
pub(crate) fn secret_key_decodes(bytes: &[u8]) -> (r: bool)
    ensures
        r == (bytes@.len() == SECRET_KEY_BYTES),
{
    kyber768::SecretKey::from_bytes(bytes).is_ok()
}

/// Relies on `kyber768::keypair`: a fresh random keypair, as its fixed-length
/// byte encodings (public key, secret key); the two belong together.
#[verifier::external_body]
pub(crate) fn kyber_keypair() -> (r: (Vec<u8>, Vec<u8>))
    ensures
        r.0@.len() == PUBLIC_KEY_BYTES,
        r.1@.len() == SECRET_KEY_BYTES,
        kyber_pair(r.0@, r.1@),
{
    let (pk, sk) = kyber768::keypair();
    (pk.as_bytes().to_vec(), sk.as_bytes().to_vec())
}

/// Relies on `kyber768::encapsulate`: for a public key of the right length, a
/// random (ciphertext, shared secret) pair of the scheme's fixed lengths, such
/// that `kyber768::decapsulate` of the ciphertext with the matching secret key
/// gives the same shared secret (the KEM's correctness, as the crate's own
/// example asserts; Kyber768's decryption-failure probability is about 2^-164).
#[verifier::external_body]
pub(crate) fn kyber_encapsulate(public_key: &[u8]) -> (r: (Vec<u8>, Vec<u8>))
    requires
        public_key@.len() == PUBLIC_KEY_BYTES,
    ensures
        r.0@.len() == CIPHERTEXT_BYTES,
        r.1@.len() == SHARED_SECRET_BYTES,
        encapsulates_to(public_key@, r.0@, r.1@),
{
    match kyber768::PublicKey::from_bytes(public_key) {
        Ok(pk) => {
            let (ss, ct) = kyber768::encapsulate(&pk);
            (ct.as_bytes().to_vec(), ss.as_bytes().to_vec())
        },
        Err(_) => (Vec::new(), Vec::new()),
    }
}

/// Relies on `kyber768::decapsulate`: a deterministic function of the ciphertext
/// and the secret key, of the shared-secret length.
#[verifier::external_body]
pub(crate) fn kyber_decapsulate(ciphertext: &[u8], secret_key: &[u8]) -> (r: Vec<u8>)
    requires
        ciphertext@.len() == CIPHERTEXT_BYTES,
        secret_key@.len() == SECRET_KEY_BYTES,
    ensures
        r@ == kyber_decapsulated(ciphertext@, secret_key@),
        r@.len() == SHARED_SECRET_BYTES,
{
    match (kyber768::Ciphertext::from_bytes(ciphertext), kyber768::SecretKey::from_bytes(secret_key)) {
        (Ok(ct), Ok(sk)) => kyber768::decapsulate(&ct, &sk).as_bytes().to_vec(),
        _ => Vec::new(),
    }
}

} // verus!
