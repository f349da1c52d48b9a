//! The failures that the keystore and the handshake report.
use vstd::prelude::*;

verus! {

/// Why a sealed key file could not be used.
#[derive(Clone, Copy, Debug, PartialEq, Eq, Structural)]
pub enum Corruption {
    /// The file is shorter than a nonce.
    Truncated,
    /// Authenticated decryption failed: the file was altered or the key is wrong.
    AuthenticationFailed,
    /// The decrypted payload is not a well-formed key ring record.
    MalformedRecord,
    /// No entry of the ring decodes to a valid keypair.
    NoValidEntries,
}

/// The failures of this library.
#[derive(Clone, Copy, Debug, PartialEq, Eq, Structural)]
pub enum PqcError {
    /// A filesystem or network operation failed.
    IoFailure,
    /// The credential store could not give or keep the master key.
    CredentialStoreFailure,
    /// The AEAD cipher could not be set up or could not seal.
    CipherFailure,
    /// The key file is corrupt; the caller quarantines it.
    CorruptionDetected(Corruption),
    /// The key ring holds no entry.
    KeystoreEmpty,
    /// Stored or transmitted key material does not decode.
    InvalidKeyBytes,
    /// A handshake step failed; the connection attempt is over.
    HandshakeAborted,
}

} // verus!
