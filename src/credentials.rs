//! The master key as the host credential store keeps it: base64 text.
use base64::engine::general_purpose;
use base64::Engine as _;
use rand::rngs::OsRng;
use rand::RngCore;
use vstd::prelude::*;

use crate::error::PqcError;
use crate::sealed::MASTER_KEY_LEN;

verus! {

/// The standard (padded) base64 text of `bytes`.
pub uninterp spec fn base64_text(bytes: Seq<u8>) -> Seq<char>;

/// The bytes that standard base64 decoding of `text` gives, or `None` where
/// `text` is not valid base64.
pub uninterp spec fn base64_bytes(text: Seq<char>) -> Option<Seq<u8>>;

/// Relies on `base64::engine::general_purpose::STANDARD.encode`: padded output of
/// four characters for each started group of three bytes, which `STANDARD.decode`
/// turns back into the input.
#[verifier::external_body]
fn base64_encode(bytes: &[u8]) -> (r: String)
    requires
        bytes@.len() <= usize::MAX / 2,
    ensures
        r@ == base64_text(bytes@),
        r@.len() == 4 * ((bytes@.len() + 2) / 3),
        base64_bytes(r@) == Some(bytes@),
{
    general_purpose::STANDARD.encode(bytes)
}

/// Relies on `base64::engine::general_purpose::STANDARD.decode`: the decoded
/// bytes, or an error on invalid input.
#[verifier::external_body]
fn base64_decode(text: &str) -> (r: Option<Vec<u8>>)
    ensures
        r matches Some(b) ==> base64_bytes(text@) == Some(b@),
        r is None ==> base64_bytes(text@) is None,
{
    general_purpose::STANDARD.decode(text).ok()
}

/// Relies on `rand::rngs::OsRng` with `RngCore::try_fill_bytes`: fills `buf` from
/// the operating system's CSPRNG, or reports that it cannot be read.
#[verifier::external_body]
fn os_fill_random(buf: &mut Vec<u8>) -> (ok: bool)
    ensures
        final(buf)@.len() == old(buf)@.len(),
{
    OsRng.try_fill_bytes(buf.as_mut_slice()).is_ok()
}

/// Encodes key bytes as standard base64 text.
pub fn encode_base64(bytes: &[u8]) -> (r: String)
    requires
        bytes@.len() <= usize::MAX / 2,
    ensures
        r@ == base64_text(bytes@),
        r@.len() == 4 * ((bytes@.len() + 2) / 3),
        base64_bytes(r@) == Some(bytes@),
{
    base64_encode(bytes)
}

/// Decodes standard base64 text; `None` where it is not valid base64.
pub fn decode_base64(text: &str) -> (r: Option<Vec<u8>>)
    ensures
        r matches Some(b) ==> base64_bytes(text@) == Some(b@),
        r is None ==> base64_bytes(text@) is None,
{
    base64_decode(text)
}

/// The master key from the text that the credential store holds.
pub fn decode_master_key(stored: &str) -> (r: Result<Vec<u8>, PqcError>)
    ensures
        r matches Ok(k) ==> base64_bytes(stored@) == Some(k@),
        r is Err <==> base64_bytes(stored@) is None,
        r is Err ==> r matches Err(PqcError::CredentialStoreFailure),
{
    match base64_decode(stored) {
        Some(k) => Ok(k),
        None => Err(PqcError::CredentialStoreFailure),
    }
}

/// A fresh 256-bit master key, and the text to keep in the credential store.
pub fn generate_master_key() -> (r: Result<(Vec<u8>, String), PqcError>)
    ensures
        r matches Ok((k, text)) ==> k@.len() == MASTER_KEY_LEN && text@ == base64_text(k@)
            && base64_bytes(text@) == Some(k@),
        r is Err ==> r matches Err(PqcError::IoFailure),
{
    let mut k: Vec<u8> = vec![0u8; MASTER_KEY_LEN];
    if !os_fill_random(&mut k) {
        return Err(PqcError::IoFailure);
    }
    let text = base64_encode(k.as_slice());
    Ok((k, text))
}

} // verus!
