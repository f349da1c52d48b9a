use pqc_keystore::error::{Corruption, PqcError};
use pqc_keystore::kem::{PUBLIC_KEY_BYTES, SECRET_KEY_BYTES};
use pqc_keystore::keystore::{Keystore, DEFAULT_RETENTION_COUNT, DEFAULT_ROTATION_INTERVAL_SECS};
use pqc_keystore::nonce::derive_nonce;
use pqc_keystore::ring::{ensure_identity, recover_ring, retain_valid, KeyEntry, KeyRing};

const DAY: i64 = 86400;

fn entry(created_at: i64, fill: u8) -> KeyEntry {
    KeyEntry {
        created_at,
        secret_key: vec![fill; SECRET_KEY_BYTES],
        public_key: vec![fill; PUBLIC_KEY_BYTES],
    }
}

fn ring_of(entries: Vec<KeyEntry>, counter: u64) -> KeyRing {
    KeyRing { format_version: 1, nonce_counter: counter, entries }
}

#[test]
fn empty_directory_gives_exactly_one_entry() {
    let (ring, quarantine) = recover_ring(None, &[]).unwrap();
    assert!(!quarantine);
    assert_eq!(ring.entries.len(), 0);
    let (ring, fresh) = ensure_identity(ring, 1_000).unwrap();
    assert!(fresh);
    assert_eq!(ring.entries.len(), 1);
    assert_eq!(ring.nonce_counter, 1);
    assert_eq!(ring.entries[0].created_at, 1_000);
    let expected_pk = ring.entries[0].public_key.clone();
    let expected_sk = ring.entries[0].secret_key.clone();
    let store = Keystore::new(ring, vec![0u8; 32]);
    let (pk, sk) = store.current_keypair().unwrap();
    assert_eq!(pk, expected_pk);
    assert_eq!(sk, expected_sk);
    assert_eq!(pk.len(), PUBLIC_KEY_BYTES);
    assert_eq!(sk.len(), SECRET_KEY_BYTES);
}

#[test]
fn corrupt_file_is_quarantined_and_ring_restarts() {
    for kind in [Corruption::Truncated, Corruption::AuthenticationFailed, Corruption::MalformedRecord] {
        // A short file carries no counter; a longer one continues from its nonce.
        let short = [0u8; 5];
        let (ring, quarantine) =
            recover_ring(Some(Err(PqcError::CorruptionDetected(kind))), &short).unwrap();
        assert!(quarantine);
        assert_eq!(ring.entries.len(), 0);
        assert_eq!(ring.nonce_counter, 0);
        let (ring, fresh) = ensure_identity(ring, 5).unwrap();
        assert!(fresh);
        assert_eq!(ring.entries.len(), 1);
        assert_eq!(ring.nonce_counter, 1);

        let mut long = derive_nonce(41);
        long.extend_from_slice(&[0xAA; 30]);
        let (ring, quarantine) =
            recover_ring(Some(Err(PqcError::CorruptionDetected(kind))), &long).unwrap();
        assert!(quarantine);
        assert_eq!(ring.nonce_counter, 41);
        let (ring, _) = ensure_identity(ring, 5).unwrap();
        assert_eq!(ring.entries.len(), 1);
        assert_eq!(ring.nonce_counter, 42);
    }
}

#[test]
fn other_load_failures_are_passed_on() {
    assert_eq!(
        recover_ring(Some(Err(PqcError::CipherFailure)), &[]).err(),
        Some(PqcError::CipherFailure)
    );
}

#[test]
fn invalid_entries_are_dropped_on_load() {
    let mut short = entry(2, 2);
    short.public_key.pop();
    let ring = ring_of(vec![entry(1, 1), short, entry(3, 3)], 4);
    let (kept, quarantine) = recover_ring(Some(Ok(ring)), &derive_nonce(4)).unwrap();
    assert!(!quarantine);
    assert_eq!(kept.nonce_counter, 4);
    let times: Vec<i64> = kept.entries.iter().map(|e| e.created_at).collect();
    assert_eq!(times, vec![1, 3]);
}

#[test]
fn ring_with_no_valid_entry_is_quarantined() {
    let mut bad = entry(1, 1);
    bad.secret_key.truncate(10);
    let (ring, quarantine) =
        recover_ring(Some(Ok(ring_of(vec![bad], 9))), &derive_nonce(9)).unwrap();
    assert!(quarantine);
    assert_eq!(ring.entries.len(), 0);
    assert_eq!(ring.nonce_counter, 9);
    let (ring, _) = ensure_identity(ring, 1).unwrap();
    assert_eq!(ring.nonce_counter, 10);
}

#[test]
fn retain_valid_keeps_order() {
    let mut bad = entry(5, 5);
    bad.secret_key.clear();
    let kept = retain_valid(&vec![entry(1, 1), bad, entry(7, 7), entry(9, 9)]);
    let times: Vec<i64> = kept.iter().map(|e| e.created_at).collect();
    assert_eq!(times, vec![1, 7, 9]);
}

#[test]
fn loaded_ring_needs_no_new_identity() {
    let (ring, fresh) = ensure_identity(ring_of(vec![entry(1, 1)], 3), 100).unwrap();
    assert!(!fresh);
    assert_eq!(ring.nonce_counter, 3);
    assert_eq!(ring.entries.len(), 1);
}

#[test]
fn exhausted_counter_cannot_seal_a_new_identity() {
    assert_eq!(ensure_identity(ring_of(vec![], u64::MAX), 1).err(), Some(PqcError::CipherFailure));
}

#[test]
fn rotation_at_full_retention_drops_oldest() {
    let last = 10 * DAY;
    let ring = ring_of(vec![entry(last - 2 * DAY, 1), entry(last - DAY, 2), entry(last, 3)], 5);
    let mut store = Keystore::new(ring, vec![9u8; 32]);
    assert_eq!(store.retention_count(), 3);
    assert_eq!(store.rotation_interval(), 86400);
    let now = last + DEFAULT_ROTATION_INTERVAL_SECS as i64;
    let rotation = store.maybe_rotate(now).unwrap().unwrap();
    assert_eq!(rotation.entry.created_at, now);
    assert_eq!(rotation.ring.nonce_counter, 6);
    assert_eq!(rotation.ring.entries.len(), 3);
    let snapshot_times: Vec<i64> = rotation.ring.entries.iter().map(|e| e.created_at).collect();
    assert_eq!(snapshot_times, vec![last - DAY, last, now]);
    let new_pk = rotation.entry.public_key.clone();
    let retired = store.apply_rotation(rotation).unwrap();
    assert_eq!(retired.created_at, last - 2 * DAY);
    assert_eq!(retired.secret_key, vec![0u8; SECRET_KEY_BYTES]);
    assert_eq!(retired.public_key, vec![1u8; PUBLIC_KEY_BYTES]);
    assert_eq!(store.ring().entries.len(), 3);
    assert_eq!(store.ring().nonce_counter, 6);
    assert_eq!(store.ring().entries[0].created_at, last - DAY);
    assert_eq!(store.current_keypair().unwrap().0, new_pk);
}

#[test]
fn no_rotation_within_interval() {
    let ring = ring_of(vec![entry(1_000, 1)], 1);
    let store = Keystore::new(ring, vec![0u8; 32]);
    assert!(store.maybe_rotate(1_000).unwrap().is_none());
    assert!(store.maybe_rotate(1_000 + DAY - 1).unwrap().is_none());
    assert!(store.maybe_rotate(0).unwrap().is_none());
    assert!(!store.rotation_due(1_000 + DAY - 1));
    assert!(store.rotation_due(1_000 + DAY));
    assert_eq!(store.ring().nonce_counter, 1);
}

#[test]
fn two_rotations_at_same_time_rotate_once() {
    let ring = ring_of(vec![entry(0, 1)], 1);
    let mut store = Keystore::new(ring, vec![0u8; 32]);
    let now = 2 * DAY;
    let first = store.maybe_rotate(now).unwrap().unwrap();
    assert!(store.apply_rotation(first).is_none());
    assert!(store.maybe_rotate(now).unwrap().is_none());
    assert_eq!(store.ring().entries.len(), 2);
    assert_eq!(store.ring().nonce_counter, 2);
}

#[test]
fn retention_bound_holds_over_many_rotations() {
    let ring = ring_of(vec![entry(0, 1)], 1);
    let mut store = Keystore::with_policy(ring, vec![0u8; 32], 2, 10);
    let mut retired_count = 0;
    for step in 1..=6i64 {
        let rotation = store.maybe_rotate(step * 10).unwrap().unwrap();
        if let Some(old) = store.apply_rotation(rotation) {
            retired_count += 1;
            assert!(old.secret_key.iter().all(|b| *b == 0));
            assert_eq!(old.secret_key.len(), SECRET_KEY_BYTES);
        }
        assert!(store.ring().entries.len() <= 2);
        assert_eq!(store.ring().nonce_counter, 1 + step as u64);
    }
    assert_eq!(retired_count, 5);
    let times: Vec<i64> = store.ring().entries.iter().map(|e| e.created_at).collect();
    assert_eq!(times, vec![50, 60]);
}

#[test]
fn failed_persist_leaves_previous_identity() {
    let ring = ring_of(vec![entry(0, 4)], 1);
    let store = Keystore::new(ring, vec![0u8; 32]);
    let _planned = store.maybe_rotate(DAY).unwrap().unwrap();
    assert_eq!(store.ring().entries.len(), 1);
    assert_eq!(store.current_keypair().unwrap().0, vec![4u8; PUBLIC_KEY_BYTES]);
}

#[test]
fn empty_keystore_is_reported() {
    let store = Keystore::new(ring_of(vec![], 0), vec![0u8; 32]);
    assert_eq!(store.current_keypair().err(), Some(PqcError::KeystoreEmpty));
    assert_eq!(store.maybe_rotate(DAY).err(), Some(PqcError::KeystoreEmpty));
}

#[test]
fn corrupt_current_entry_is_reported() {
    let mut bad = entry(0, 1);
    bad.public_key.push(0);
    let store = Keystore::new(ring_of(vec![bad], 1), vec![0u8; 32]);
    assert_eq!(store.current_keypair().err(), Some(PqcError::InvalidKeyBytes));
}

#[test]
fn exhausted_counter_blocks_rotation() {
    let store = Keystore::new(ring_of(vec![entry(0, 1)], u64::MAX), vec![0u8; 32]);
    assert_eq!(store.maybe_rotate(DAY).err(), Some(PqcError::CipherFailure));
    assert_eq!(DEFAULT_RETENTION_COUNT, 3);
}

#[test]
fn discarded_rotation_leaves_keystore_unchanged() {
    let ring = ring_of(vec![entry(0, 4)], 1);
    let store = Keystore::new(ring, vec![0u8; 32]);
    let planned = store.maybe_rotate(DAY).unwrap().unwrap();
    planned.discard();
    assert_eq!(store.ring().entries.len(), 1);
    assert_eq!(store.ring().nonce_counter, 1);
    assert_eq!(store.ring().entries[0].secret_key, vec![4u8; SECRET_KEY_BYTES]);
}
