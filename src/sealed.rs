//! The sealed key file: `[12-byte nonce][AES-256-GCM output]`.
//!
//! The payload is the key ring record, already encoded; this module frames it,
//! encrypts it under the master key and checks it on the way back.
use aes_gcm::aead::{Aead, KeyInit};
use aes_gcm::{Aes256Gcm, Key, Nonce};
use vstd::prelude::*;

use crate::error::{Corruption, PqcError};
use crate::nonce::{counter_in, derive_nonce, lemma_counter_in_nonce, nonce_of, NONCE_LEN};

verus! {

/// Length of an AES-256 key.
pub const MASTER_KEY_LEN: usize = 32;

/// Length of the GCM authentication tag appended to each ciphertext.
pub const TAG_LEN: usize = 16;

/// Largest plaintext that AES-GCM seals (2^36 bytes).
pub const MAX_PLAINTEXT_LEN: u64 = 0x10_0000_0000;

/// What AES-256-GCM produces for `plaintext` under `key` and `nonce`, with no
/// associated data.
pub uninterp spec fn aes_gcm_sealed(key: Seq<u8>, nonce: Seq<u8>, plaintext: Seq<u8>) -> Seq<u8>;

/// What AES-256-GCM decryption of `ciphertext` gives under `key` and `nonce`:
/// the plaintext, or `None` where authentication fails.
pub uninterp spec fn aes_gcm_opened(key: Seq<u8>, nonce: Seq<u8>, ciphertext: Seq<u8>) -> Option<
    Seq<u8>,
>;

/// Relies on `aes_gcm::Aes256Gcm` with `aead::Aead::encrypt`: it fails only on a
/// plaintext over 2^36 bytes, appends a 16-byte tag, and what it returns decrypts
/// back to the plaintext under the same key and nonce.
#[verifier::external_body]
fn aes_gcm_encrypt(key: &[u8], nonce: &[u8], plaintext: &[u8]) -> (r: Option<Vec<u8>>)
    requires
        key@.len() == MASTER_KEY_LEN,
        nonce@.len() == NONCE_LEN,
    ensures
        r is Some <==> plaintext@.len() <= MAX_PLAINTEXT_LEN,
        r matches Some(c) ==> c@ == aes_gcm_sealed(key@, nonce@, plaintext@),
        r matches Some(c) ==> c@.len() == plaintext@.len() + TAG_LEN,
        r matches Some(c) ==> aes_gcm_opened(key@, nonce@, c@) == Some(plaintext@),
{
    let cipher = Aes256Gcm::new(Key::<Aes256Gcm>::from_slice(key));
    cipher.encrypt(Nonce::from_slice(nonce), plaintext).ok()
}

/// Relies on `aes_gcm::Aes256Gcm` with `aead::Aead::decrypt`: the plaintext, or
/// an error where the tag does not authenticate the ciphertext.
#[verifier::external_body]
fn aes_gcm_decrypt(key: &[u8], nonce: &[u8], ciphertext: &[u8]) -> (r: Option<Vec<u8>>)
    requires
        key@.len() == MASTER_KEY_LEN,
        nonce@.len() == NONCE_LEN,
    ensures
        r matches Some(p) ==> aes_gcm_opened(key@, nonce@, ciphertext@) == Some(p@),
        r is None ==> aes_gcm_opened(key@, nonce@, ciphertext@) is None,
{
    let cipher = Aes256Gcm::new(Key::<Aes256Gcm>::from_slice(key));
    cipher.decrypt(Nonce::from_slice(nonce), ciphertext).ok()
}

/// The sealed file for `payload` in the snapshot that carries `counter`.
pub open spec fn sealed_file(key: Seq<u8>, counter: u64, payload: Seq<u8>) -> Seq<u8> {
    nonce_of(counter) + aes_gcm_sealed(key, nonce_of(counter), payload)
}

/// Whether `seal` succeeds: a 256-bit key and a payload that AES-GCM accepts.
pub open spec fn seal_succeeds(key: Seq<u8>, payload: Seq<u8>) -> bool {
    key.len() == MASTER_KEY_LEN && payload.len() <= MAX_PLAINTEXT_LEN
}

/// What unsealing `file` under `key` gives.
pub open spec fn unsealed(key: Seq<u8>, file: Seq<u8>) -> Result<Seq<u8>, PqcError> {
    if key.len() != MASTER_KEY_LEN {
        Err(PqcError::CipherFailure)
    } else if file.len() < NONCE_LEN {
        Err(PqcError::CorruptionDetected(Corruption::Truncated))
    } else {
        match aes_gcm_opened(key, file.take(NONCE_LEN as int), file.skip(NONCE_LEN as int)) {
            Some(p) => Ok(p),
            None => Err(PqcError::CorruptionDetected(Corruption::AuthenticationFailed)),
        }
    }
}

/// The counter that a sealed file's nonce carries, or 0 for a file too short to
/// hold a nonce.
pub open spec fn sealed_counter(file: Seq<u8>) -> u64 {
    if file.len() >= NONCE_LEN {
        counter_in(file.take(NONCE_LEN as int))
    } else {
        0
    }
}

/// Reads the counter that a sealed file's nonce carries (0 for a file too short
/// to hold a nonce). It is read whether or not the file authenticates, so that a
/// quarantined file's nonces are never used again.
pub fn file_counter(file: &[u8]) -> (r: u64)
    ensures
        r == sealed_counter(file@),
{
    if file.len() < NONCE_LEN {
        return 0;
    }
    let ghost n = file@.take(NONCE_LEN as int);
    assert(n[4] == file@[4] && n[5] == file@[5] && n[6] == file@[6] && n[7] == file@[7]);
    assert(n[8] == file@[8] && n[9] == file@[9] && n[10] == file@[10] && n[11] == file@[11]);
    ((file[4] as u64) << 56u64) | ((file[5] as u64) << 48u64) | ((file[6] as u64) << 40u64) | ((
    file[7] as u64) << 32u64) | ((file[8] as u64) << 24u64) | ((file[9] as u64) << 16u64) | ((
    file[10] as u64) << 8u64) | (file[11] as u64)
}

/// The view of a result that holds bytes.
pub open spec fn bytes_result(r: Result<Vec<u8>, PqcError>) -> Result<Seq<u8>, PqcError> {
    match r {
        Ok(v) => Ok(v@),
        Err(e) => Err(e),
    }
}

/// Seals `payload` under `key` with the nonce derived from `counter`.
///
/// The counter must already be the incremented one that the persisted snapshot
/// carries. What is returned unseals back to `payload`.
pub fn seal(key: &[u8], counter: u64, payload: &[u8]) -> (r: Result<Vec<u8>, PqcError>)
    ensures
        r is Ok <==> seal_succeeds(key@, payload@),
        r is Err ==> r == Err::<Vec<u8>, PqcError>(PqcError::CipherFailure),
        r matches Ok(file) ==> file@ == sealed_file(key@, counter, payload@),
        r matches Ok(file) ==> unsealed(key@, file@) == Ok::<Seq<u8>, PqcError>(payload@),
{
    if key.len() != MASTER_KEY_LEN {
        return Err(PqcError::CipherFailure);
    }
    let nonce = derive_nonce(counter);
    match aes_gcm_encrypt(key, nonce.as_slice(), payload) {
        None => Err(PqcError::CipherFailure),
        Some(ciphertext) => {
            let mut file = nonce;
            file.extend_from_slice(ciphertext.as_slice());
            proof {
                lemma_counter_in_nonce(counter);
                assert(file@ =~= sealed_file(key@, counter, payload@));
                assert(file@.take(NONCE_LEN as int) =~= nonce_of(counter));
                assert(file@.skip(NONCE_LEN as int) =~= ciphertext@);
            }
            Ok(file)
        },
    }
}

/// Opens a sealed file: checks its length, splits off the nonce and decrypts.
pub fn unseal(key: &[u8], file: &[u8]) -> (r: Result<Vec<u8>, PqcError>)
    ensures
        bytes_result(r) == unsealed(key@, file@),
{
    if key.len() != MASTER_KEY_LEN {
        return Err(PqcError::CipherFailure);
    }
    if file.len() < NONCE_LEN {
        return Err(PqcError::CorruptionDetected(Corruption::Truncated));
    }
    let (nonce, ciphertext) = file.split_at(NONCE_LEN);
    assert(nonce@ =~= file@.take(NONCE_LEN as int));
    assert(ciphertext@ =~= file@.skip(NONCE_LEN as int));
    match aes_gcm_decrypt(key, nonce, ciphertext) {
        Some(p) => Ok(p),
        None => Err(PqcError::CorruptionDetected(Corruption::AuthenticationFailed)),
    }
}

} // verus!
