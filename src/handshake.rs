//! The two-message KEM handshake, as a state machine for each role.
//!
//! The initiator sends an ephemeral public key and receives a ciphertext; the
//! responder receives the public key and sends the ciphertext. Messages are raw
//! blocks of the scheme's fixed lengths. The caller moves the bytes over the
//! stream and feeds each state machine what it read; any I/O failure is reported
//! with `abort`. There is no retry: a failure ends the attempt.
use vstd::prelude::*;

use crate::error::PqcError;
use crate::kem::{
    encapsulates_to, kyber_decapsulate, kyber_decapsulated, kyber_encapsulate, kyber_keypair,
    kyber_pair, public_key_decodes, CIPHERTEXT_BYTES, PUBLIC_KEY_BYTES, SECRET_KEY_BYTES,
    SHARED_SECRET_BYTES,
};
use crate::ring::wipe;

verus! {

/// Where a handshake stands.
#[derive(Clone, Copy, Debug, PartialEq, Eq, Structural)]
pub enum HandshakeState {
    Start,
    AwaitingPeerInput,
    Complete,
    Failed,
}

/// All bytes of `s` are zero.
pub open spec fn all_zero(s: Seq<u8>) -> bool {
    forall|i: int| 0 <= i < s.len() ==> s[i] == 0u8
}

/// Handshake agreement: when the responder encapsulates to exactly the public key
/// that the initiator sent, and the initiator decapsulates exactly the ciphertext
/// that the responder sent, with the secret key that belongs to its public key,
/// both sides hold the same shared secret.
pub proof fn lemma_handshake_agreement(
    public_key: Seq<u8>,
    ephemeral_secret: Seq<u8>,
    ciphertext: Seq<u8>,
    responder_secret: Seq<u8>,
)
    requires
        kyber_pair(public_key, ephemeral_secret),
        encapsulates_to(public_key, ciphertext, responder_secret),
    ensures
        kyber_decapsulated(ciphertext, ephemeral_secret) == responder_secret,
{
}

/// The dialing side: owns an ephemeral keypair for the length of one handshake.
pub struct Initiator {
    state: HandshakeState,
    ephemeral_secret: Vec<u8>,
}

/// The mathematical value of an [`Initiator`].
pub struct InitiatorModel {
    pub state: HandshakeState,
    pub ephemeral_secret: Seq<u8>,
}

impl View for Initiator {
    type V = InitiatorModel;

    closed spec fn view(&self) -> InitiatorModel {
        InitiatorModel { state: self.state, ephemeral_secret: self.ephemeral_secret@ }
    }
}

impl Initiator {
    /// While the initiator awaits the ciphertext it holds a whole ephemeral secret key.
    #[verifier::type_invariant]
    spec fn holds_secret_while_awaiting(&self) -> bool {
        self.state == HandshakeState::AwaitingPeerInput ==> self.ephemeral_secret@.len()
            == SECRET_KEY_BYTES
    }

    /// An initiator that has not sent anything yet.
    pub fn new() -> (r: Initiator)
        ensures
            r@.state == HandshakeState::Start,
            r@.ephemeral_secret.len() == 0,
    {
        Initiator { state: HandshakeState::Start, ephemeral_secret: Vec::new() }
    }

    /// Where the handshake stands.
    pub fn state(&self) -> (r: HandshakeState)
        ensures
            r == self@.state,
    {
        self.state
    }

    /// The number of bytes to read from the peer: one ciphertext.
    pub fn expected_reply_len(&self) -> (r: usize)
        ensures
            r == CIPHERTEXT_BYTES,
    {
        CIPHERTEXT_BYTES
    }

    /// Generates the ephemeral keypair and returns the public key to write.
    ///
    /// Only a fresh initiator starts; in any other state the attempt fails.
    pub fn start(&mut self) -> (r: Result<Vec<u8>, PqcError>)
        ensures
            old(self)@.state == HandshakeState::Start ==> (r matches Ok(pk) && pk@.len()
                == PUBLIC_KEY_BYTES && final(self)@.state == HandshakeState::AwaitingPeerInput
                && final(self)@.ephemeral_secret.len() == SECRET_KEY_BYTES && kyber_pair(
                pk@,
                final(self)@.ephemeral_secret,
            )),
            old(self)@.state != HandshakeState::Start ==> (r matches Err(PqcError::HandshakeAborted)
                && final(self)@.state == HandshakeState::Failed && all_zero(
                final(self)@.ephemeral_secret,
            )),
    {
        if self.state != HandshakeState::Start {
            self.abort();
            return Err(PqcError::HandshakeAborted);
        }
        let (pk, sk) = kyber_keypair();
        self.ephemeral_secret = sk;
        self.state = HandshakeState::AwaitingPeerInput;
        Ok(pk)
    }

    /// Takes the responder's ciphertext and decapsulates it with the ephemeral
    /// secret key. The ephemeral secret is wiped whatever the outcome.
    pub fn receive(&mut self, ciphertext: &[u8]) -> (r: Result<Vec<u8>, PqcError>)
        ensures
            old(self)@.state == HandshakeState::AwaitingPeerInput && ciphertext@.len()
                == CIPHERTEXT_BYTES ==> (r matches Ok(secret) && secret@ == kyber_decapsulated(
                ciphertext@,
                old(self)@.ephemeral_secret,
            ) && secret@.len() == SHARED_SECRET_BYTES && final(self)@.state
                == HandshakeState::Complete),
            !(old(self)@.state == HandshakeState::AwaitingPeerInput && ciphertext@.len()
                == CIPHERTEXT_BYTES) ==> (r matches Err(PqcError::HandshakeAborted)
                && final(self)@.state == HandshakeState::Failed),
            all_zero(final(self)@.ephemeral_secret),
    {
        proof {
            use_type_invariant(&*self);
        }
        if self.state != HandshakeState::AwaitingPeerInput || ciphertext.len() != CIPHERTEXT_BYTES {
            self.abort();
            return Err(PqcError::HandshakeAborted);
        }
        let secret = kyber_decapsulate(ciphertext, self.ephemeral_secret.as_slice());
        wipe(&mut self.ephemeral_secret);
        self.state = HandshakeState::Complete;
        Ok(secret)
    }

    /// Ends the attempt after a failure of the stream: wipes the ephemeral secret.
    pub fn abort(&mut self)
        ensures
            final(self)@.state == HandshakeState::Failed,
            final(self)@.ephemeral_secret.len() == old(self)@.ephemeral_secret.len(),
            all_zero(final(self)@.ephemeral_secret),
    {
        proof {
            use_type_invariant(&*self);
        }
        wipe(&mut self.ephemeral_secret);
        self.state = HandshakeState::Failed;
    }
}

/// The accepting side: holds no key material of its own.
pub struct Responder {
    state: HandshakeState,
}

impl View for Responder {
    type V = HandshakeState;

    closed spec fn view(&self) -> HandshakeState {
        self.state
    }
}

impl Responder {
    /// A responder waiting for the initiator's public key.
    pub fn new() -> (r: Responder)
        ensures
            r@ == HandshakeState::AwaitingPeerInput,
    {
        Responder { state: HandshakeState::AwaitingPeerInput }
    }

    /// Where the handshake stands.
    pub fn state(&self) -> (r: HandshakeState)
        ensures
            r == self@,
    {
        self.state
    }

    /// The number of bytes to read from the peer: one public key.
    pub fn expected_input_len(&self) -> (r: usize)
        ensures
            r == PUBLIC_KEY_BYTES,
    {
        PUBLIC_KEY_BYTES
    }

    /// Takes the initiator's public key and encapsulates to it, giving the
    /// ciphertext to write and the shared secret. Bytes that do not decode as a
    /// public key fail the attempt, and there is then nothing to write.
    pub fn receive(&mut self, public_key: &[u8]) -> (r: Result<(Vec<u8>, Vec<u8>), PqcError>)
        ensures
            old(self)@ == HandshakeState::AwaitingPeerInput && public_key@.len() == PUBLIC_KEY_BYTES
                ==> (r matches Ok((ct, secret)) && ct@.len() == CIPHERTEXT_BYTES && secret@.len()
                == SHARED_SECRET_BYTES && encapsulates_to(public_key@, ct@, secret@) && final(self)@
                == HandshakeState::Complete),
            !(old(self)@ == HandshakeState::AwaitingPeerInput && public_key@.len()
                == PUBLIC_KEY_BYTES) ==> (r matches Err(PqcError::HandshakeAborted) && final(self)@
                == HandshakeState::Failed),
    {
        if self.state != HandshakeState::AwaitingPeerInput || !public_key_decodes(public_key) {
            self.state = HandshakeState::Failed;
            return Err(PqcError::HandshakeAborted);
        }
        let (ct, secret) = kyber_encapsulate(public_key);
        self.state = HandshakeState::Complete;
        Ok((ct, secret))
    }

    /// Ends the attempt after a failure of the stream.
    pub fn abort(&mut self)
        ensures
            final(self)@ == HandshakeState::Failed,
    {
        self.state = HandshakeState::Failed;
    }
}

} // verus!
