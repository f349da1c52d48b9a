use pqc_keystore::error::PqcError;
use pqc_keystore::handshake::{HandshakeState, Initiator, Responder};
use pqc_keystore::kem::{CIPHERTEXT_BYTES, PUBLIC_KEY_BYTES, SHARED_SECRET_BYTES};

#[test]
fn initiator_and_responder_agree_on_the_secret() {
    // An in-memory stream pair: what one side writes is what the other reads.
    let mut to_responder: Vec<u8> = Vec::new();
    let mut to_initiator: Vec<u8> = Vec::new();

    let mut initiator = Initiator::new();
    let mut responder = Responder::new();
    assert_eq!(initiator.state(), HandshakeState::Start);
    assert_eq!(responder.state(), HandshakeState::AwaitingPeerInput);

    to_responder.extend(initiator.start().unwrap());
    assert_eq!(initiator.state(), HandshakeState::AwaitingPeerInput);
    let read: Vec<u8> = to_responder.drain(..responder.expected_input_len()).collect();
    let (ct, responder_secret) = responder.receive(&read).unwrap();
    to_initiator.extend(ct);
    let read: Vec<u8> = to_initiator.drain(..initiator.expected_reply_len()).collect();
    let initiator_secret = initiator.receive(&read).unwrap();

    assert_eq!(initiator_secret, responder_secret);
    assert_eq!(initiator_secret.len(), SHARED_SECRET_BYTES);
    assert_eq!(initiator.state(), HandshakeState::Complete);
    assert_eq!(responder.state(), HandshakeState::Complete);
    assert!(to_responder.is_empty() && to_initiator.is_empty());
}

#[test]
fn responder_rejects_public_key_of_wrong_length() {
    for len in [0usize, 1, PUBLIC_KEY_BYTES - 1, PUBLIC_KEY_BYTES + 1] {
        let mut responder = Responder::new();
        assert_eq!(responder.receive(&vec![7u8; len]), Err(PqcError::HandshakeAborted));
        assert_eq!(responder.state(), HandshakeState::Failed);
    }
}

#[test]
fn responder_runs_only_once() {
    let mut initiator = Initiator::new();
    let pk = initiator.start().unwrap();
    let mut responder = Responder::new();
    assert!(responder.receive(&pk).is_ok());
    assert_eq!(responder.receive(&pk), Err(PqcError::HandshakeAborted));
    assert_eq!(responder.state(), HandshakeState::Failed);
}

#[test]
fn initiator_rejects_short_ciphertext() {
    let mut initiator = Initiator::new();
    initiator.start().unwrap();
    assert_eq!(initiator.receive(&vec![0u8; CIPHERTEXT_BYTES - 1]), Err(PqcError::HandshakeAborted));
    assert_eq!(initiator.state(), HandshakeState::Failed);
}

#[test]
fn initiator_must_start_before_receiving() {
    let mut initiator = Initiator::new();
    assert_eq!(initiator.receive(&vec![0u8; CIPHERTEXT_BYTES]), Err(PqcError::HandshakeAborted));
    assert_eq!(initiator.state(), HandshakeState::Failed);
    assert_eq!(initiator.start(), Err(PqcError::HandshakeAborted));
}

#[test]
fn initiator_starts_once() {
    let mut initiator = Initiator::new();
    let pk = initiator.start().unwrap();
    assert_eq!(pk.len(), PUBLIC_KEY_BYTES);
    assert_eq!(initiator.start(), Err(PqcError::HandshakeAborted));
    assert_eq!(initiator.state(), HandshakeState::Failed);
}

#[test]
fn aborted_initiator_is_failed() {
    let mut initiator = Initiator::new();
    initiator.start().unwrap();
    initiator.abort();
    assert_eq!(initiator.state(), HandshakeState::Failed);
    assert_eq!(initiator.receive(&vec![0u8; CIPHERTEXT_BYTES]), Err(PqcError::HandshakeAborted));
}

#[test]
fn fresh_handshakes_give_fresh_secrets() {
    let mut a = Initiator::new();
    let mut b = Initiator::new();
    let pa = a.start().unwrap();
    let pb = b.start().unwrap();
    assert_ne!(pa, pb);
}
