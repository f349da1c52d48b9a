//! The keystore: the key ring in memory, its rotation interval and retention
//! policy, and the master key that seals it.
//!
//! Persisting is left to the caller: `maybe_rotate` hands back the snapshot to
//! seal and write, and `apply_rotation` changes the ring in memory once the write
//! has succeeded, so that a failed write leaves the previous identity in use.
use vstd::prelude::*;

use crate::error::{Corruption, PqcError};
use crate::nonce::{next_counter, NONCE_LEN};
use crate::ring::{
    entries_view, entry_valid, erase_entries, recovered, restarted_ring, EntryModel, KeyEntry,
    KeyRing, RingModel,
};
use crate::sealed::{sealed_counter, unsealed, MASTER_KEY_LEN};

verus! {

/// Number of identity keypairs kept unless configured otherwise.
pub const DEFAULT_RETENTION_COUNT: usize = 3;

/// Seconds between rotations unless configured otherwise (24 hours).
pub const DEFAULT_ROTATION_INTERVAL_SECS: u64 = 86400;

/// The persisted ring and its policy.
pub struct Keystore {
    ring: KeyRing,
    retention_count: usize,
    rotation_interval: u64,
    master_key: Vec<u8>,
}

/// The mathematical value of a [`Keystore`].
pub struct KeystoreModel {
    pub ring: RingModel,
    pub retention_count: nat,
    pub rotation_interval: nat,
    pub master_key: Seq<u8>,
}

impl KeystoreModel {
    /// This keystore with the ring's nonce counter set to `counter`.
    pub open spec fn with_counter(self, counter: u64) -> KeystoreModel {
        KeystoreModel { ring: RingModel { nonce_counter: counter, ..self.ring }, ..self }
    }
}

impl View for Keystore {
    type V = KeystoreModel;

    closed spec fn view(&self) -> KeystoreModel {
        KeystoreModel {
            ring: self.ring@,
            retention_count: self.retention_count as nat,
            rotation_interval: self.rotation_interval as nat,
            master_key: self.master_key@,
        }
    }
}

/// A rotation that is due: the new entry, and the ring snapshot to persist.
pub struct Rotation {
    pub entry: KeyEntry,
    pub ring: KeyRing,
}

impl Rotation {
    /// Drops a rotation that will not be applied (its snapshot could not be
    /// persisted), wiping every secret key it holds.
    pub fn discard(self) {
        let Rotation { entry, ring } = self;
        let mut entry = entry;
        entry.erase_secret();
        erase_entries(ring.entries);
    }
}

/// Whether a ring is due for rotation at `now`: its newest entry is at least
/// `interval` seconds old.
pub open spec fn rotation_due(ring: RingModel, interval: nat, now: i64) -> bool {
    ring.entries.len() > 0 && now as int - ring.entries.last().created_at as int >= interval
}

/// The entries kept when a ring holds more than `retention`: the oldest goes.
pub open spec fn retained(entries: Seq<EntryModel>, retention: nat) -> Seq<EntryModel> {
    if entries.len() > retention {
        entries.drop_first()
    } else {
        entries
    }
}

/// The entries after `entry` is appended and retention is enforced.
pub open spec fn rotated_entries(entries: Seq<EntryModel>, entry: EntryModel, retention: nat) -> Seq<
    EntryModel,
> {
    retained(entries.push(entry), retention)
}

/// `e` is `before` with every byte of its secret key overwritten by zero.
pub open spec fn erased_copy_of(e: EntryModel, before: EntryModel) -> bool {
    &&& e.created_at == before.created_at
    &&& e.public_key == before.public_key
    &&& e.secret_key.len() == before.secret_key.len()
    &&& forall|i: int| 0 <= i < e.secret_key.len() ==> e.secret_key[i] == 0u8
}

/// Entries are in ascending order of creation time.
pub open spec fn ascending(entries: Seq<EntryModel>) -> bool {
    forall|i: int, j: int|
        0 <= i < j < entries.len() ==> entries[i].created_at <= entries[j].created_at
}

/// The keystore's invariant once loaded: a non-empty ring of valid entries, in
/// ascending order of creation, within a retention count of at least one.
pub open spec fn keystore_invariant(m: KeystoreModel) -> bool {
    &&& m.retention_count >= 1
    &&& 0 < m.ring.entries.len() <= m.retention_count
    &&& ascending(m.ring.entries)
    &&& forall|i: int| 0 <= i < m.ring.entries.len() ==> entry_valid(#[trigger] m.ring.entries[i])
}

/// The keystore after `entry` is rotated in.
pub open spec fn after_rotation(m: KeystoreModel, entry: EntryModel) -> KeystoreModel {
    KeystoreModel {
        ring: RingModel {
            entries: rotated_entries(m.ring.entries, entry, m.retention_count),
            ..m.ring
        },
        ..m
    }
}

/// Retention invariant: a due rotation with a valid entry created at `now` keeps the
/// keystore's invariant, so after any number of rotations the ring holds at most
/// `retention_count` entries.
pub proof fn lemma_rotation_keeps_invariant(m: KeystoreModel, entry: EntryModel, now: i64)
    requires
        keystore_invariant(m),
        rotation_due(m.ring, m.rotation_interval, now),
        entry_valid(entry),
        entry.created_at == now,
    ensures
        keystore_invariant(after_rotation(m, entry)),
{
    let pushed = m.ring.entries.push(entry);
    assert(ascending(pushed)) by {
        assert forall|i: int, j: int| 0 <= i < j < pushed.len() implies pushed[i].created_at
            <= pushed[j].created_at by {
            if j == pushed.len() - 1 && i < j {
                assert(m.ring.entries[i].created_at <= m.ring.entries.last().created_at);
            }
        }
    }
    assert(forall|i: int| 0 <= i < pushed.len() ==> entry_valid(#[trigger] pushed[i]));
    let after = rotated_entries(m.ring.entries, entry, m.retention_count);
    if pushed.len() > m.retention_count {
        assert(after == pushed.drop_first());
        assert(forall|i: int| 0 <= i < after.len() ==> after[i] == pushed[i + 1]);
    }
}

/// Rotation is idempotent under time: once a due rotation at `now` has been applied,
/// the ring is not due again at the same `now`, for any positive interval.
pub proof fn lemma_rotation_idempotent(
    ring: RingModel,
    entry: EntryModel,
    retention: nat,
    interval: nat,
    now: i64,
)
    requires
        interval > 0,
        rotation_due(ring, interval, now),
        entry.created_at == now,
    ensures
        !rotation_due(
            RingModel { entries: rotated_entries(ring.entries, entry, retention), ..ring },
            interval,
            now,
        ),
{
    let after = rotated_entries(ring.entries, entry, retention);
    if after.len() > 0 {
        assert(after.last() == entry);
    }
}

/// Corruption recovery: a sealed file that is shorter than a nonce, or that fails
/// authenticated decryption, is quarantined, and the keystore starts from an empty
/// ring (which then receives exactly one fresh entry) whose nonce counter continues
/// from the counter that the file's nonce carries.
pub proof fn lemma_corrupt_file_quarantined(key: Seq<u8>, file: Seq<u8>)
    requires
        key.len() == MASTER_KEY_LEN,
        unsealed(key, file) is Err,
    ensures
        file.len() < NONCE_LEN ==> unsealed(key, file) == Err::<Seq<u8>, PqcError>(
            PqcError::CorruptionDetected(Corruption::Truncated),
        ),
        recovered(Some(Err(unsealed(key, file)->Err_0)), file) == Ok::<(RingModel, bool), PqcError>(
            (restarted_ring(sealed_counter(file)), true),
        ),
{
}

/// A copy of `entries`.
fn duplicate_entries(entries: &Vec<KeyEntry>) -> (r: Vec<KeyEntry>)
    ensures
        entries_view(r@) == entries_view(entries@),
{
    let mut out: Vec<KeyEntry> = Vec::new();
    let mut i: usize = 0;
    while i < entries.len()
        invariant
            i <= entries@.len(),
            entries_view(out@) == entries_view(entries@).take(i as int),
        decreases entries@.len() - i,
    {
        let ghost before = out@;
        let e = entries[i].duplicate();
        out.push(e);
        assert(entries_view(out@) =~= entries_view(before).push(e@));
        assert(entries_view(out@) =~= entries_view(entries@).take(i + 1));
        i += 1;
    }
    assert(entries_view(entries@).take(i as int) =~= entries_view(entries@));
    out
}

impl Keystore {
    /// A keystore over `ring` with the default policy: three entries kept, one
    /// rotation every 24 hours.
    pub fn new(ring: KeyRing, master_key: Vec<u8>) -> (r: Keystore)
        ensures
            r@.ring == ring@,
            r@.retention_count == DEFAULT_RETENTION_COUNT,
            r@.rotation_interval == DEFAULT_ROTATION_INTERVAL_SECS,
            r@.master_key == master_key@,
    {
        Keystore {
            ring,
            retention_count: DEFAULT_RETENTION_COUNT,
            rotation_interval: DEFAULT_ROTATION_INTERVAL_SECS,
            master_key,
        }
    }

    /// A keystore over `ring` that keeps `retention_count` entries and rotates
    /// every `rotation_interval` seconds.
    pub fn with_policy(
        ring: KeyRing,
        master_key: Vec<u8>,
        retention_count: usize,
        rotation_interval: u64,
    ) -> (r: Keystore)
        ensures
            r@.ring == ring@,
            r@.retention_count == retention_count,
            r@.rotation_interval == rotation_interval,
            r@.master_key == master_key@,
    {
        Keystore { ring, retention_count, rotation_interval, master_key }
    }

    /// The key ring.
    pub fn ring(&self) -> (r: &KeyRing)
        ensures
            r@ == self@.ring,
    {
        &self.ring
    }

    /// The master key that seals the ring.
    pub fn master_key(&self) -> (r: &Vec<u8>)
        ensures
            r@ == self@.master_key,
    {
        &self.master_key
    }

    /// The number of entries kept.
    pub fn retention_count(&self) -> (r: usize)
        ensures
            r == self@.retention_count,
    {
        self.retention_count
    }

    /// Seconds between rotations.
    pub fn rotation_interval(&self) -> (r: u64)
        ensures
            r == self@.rotation_interval,
    {
        self.rotation_interval
    }

    /// The current identity: the newest entry's (public key, secret key).
    pub fn current_keypair(&self) -> (r: Result<(Vec<u8>, Vec<u8>), PqcError>)
        ensures
            self@.ring.entries.len() == 0 ==> r matches Err(PqcError::KeystoreEmpty),
            self@.ring.entries.len() > 0 && !entry_valid(self@.ring.entries.last()) ==> r matches Err(
                PqcError::InvalidKeyBytes,
            ),
            self@.ring.entries.len() > 0 && entry_valid(self@.ring.entries.last()) ==> (r matches Ok(
                (pk, sk),
            ) && pk@ == self@.ring.entries.last().public_key && sk@
                == self@.ring.entries.last().secret_key),
    {
        let n = self.ring.entries.len();
        if n == 0 {
            return Err(PqcError::KeystoreEmpty);
        }
        let last = &self.ring.entries[n - 1];
        if !last.is_valid() {
            return Err(PqcError::InvalidKeyBytes);
        }
        let pk = last.public_key.clone();
        let sk = last.secret_key.clone();
        assert(pk@ =~= last.public_key@);
        assert(sk@ =~= last.secret_key@);
        Ok((pk, sk))
    }

    /// Whether the ring is due for rotation at `now`, with no change to anything.
    pub fn rotation_due(&self, now: i64) -> (r: bool)
        ensures
            r == rotation_due(self@.ring, self@.rotation_interval, now),
    {
        let n = self.ring.entries.len();
        if n == 0 {
            return false;
        }
        let last = self.ring.entries[n - 1].created_at;
        (now as i128) - (last as i128) >= (self.rotation_interval as i128)
    }

    /// Plans a rotation at `now`.
    ///
    /// Within the rotation interval this is `None`. Once it has elapsed, a fresh
    /// keypair is created at `now`, and the snapshot to persist holds it appended,
    /// the oldest entry dropped where the ring would exceed the retention count,
    /// and the nonce counter advanced by one. Nothing changes in memory.
    pub fn maybe_rotate(&self, now: i64) -> (r: Result<Option<Rotation>, PqcError>)
        ensures
            self@.ring.entries.len() == 0 ==> r matches Err(PqcError::KeystoreEmpty),
            self@.ring.entries.len() > 0 && !rotation_due(
                self@.ring,
                self@.rotation_interval,
                now,
            ) ==> r matches Ok(None),
            rotation_due(self@.ring, self@.rotation_interval, now) && self@.ring.nonce_counter
                == u64::MAX ==> r matches Err(PqcError::CipherFailure),
            rotation_due(self@.ring, self@.rotation_interval, now) && self@.ring.nonce_counter
                < u64::MAX ==> (r matches Ok(Some(rot)) && rot.entry.created_at == now
                && entry_valid(rot.entry@) && rot.ring@ == after_rotation(self@, rot.entry@).with_counter(
                (self@.ring.nonce_counter + 1) as u64,
            ).ring),
    {
        if self.ring.entries.len() == 0 {
            return Err(PqcError::KeystoreEmpty);
        }
        if !self.rotation_due(now) {
            return Ok(None);
        }
        let counter = match next_counter(self.ring.nonce_counter) {
            None => return Err(PqcError::CipherFailure),
            Some(c) => c,
        };
        let entry = KeyEntry::generate(now);
        let mut entries = duplicate_entries(&self.ring.entries);
        entries.push(entry.duplicate());
        let ghost pushed = entries_view(entries@);
        assert(pushed =~= self@.ring.entries.push(entry@));
        if entries.len() > self.retention_count {
            let mut oldest = entries.remove(0);
            oldest.erase_secret();
            assert(entries_view(entries@) =~= pushed.drop_first());
        }
        let ring = KeyRing { format_version: self.ring.format_version, nonce_counter: counter, entries };
        Ok(Some(Rotation { entry, ring }))
    }

    /// Applies a rotation after its snapshot has been persisted: appends the new
    /// entry, takes the nonce counter of the snapshot, and retires the oldest entry
    /// where the ring exceeds the retention count. The retired entry is returned
    /// with its secret key overwritten by zeros, and the secret keys of the
    /// snapshot's copies are wiped.
    pub fn apply_rotation(&mut self, rotation: Rotation) -> (retired: Option<KeyEntry>)
        ensures
            final(self)@ == after_rotation(old(self)@, rotation.entry@).with_counter(
                rotation.ring.nonce_counter,
            ),
            old(self)@.ring.entries.len() <= old(self)@.retention_count
                ==> final(self)@.ring.entries.len() <= final(self)@.retention_count,
            ascending(old(self)@.ring.entries) && (old(self)@.ring.entries.len() > 0
                ==> old(self)@.ring.entries.last().created_at <= rotation.entry.created_at)
                ==> ascending(final(self)@.ring.entries),
            old(self)@.ring.entries.len() + 1 > old(self)@.retention_count ==> (retired matches Some(e)
                && erased_copy_of(e@, old(self)@.ring.entries.push(rotation.entry@)[0])),
            old(self)@.ring.entries.len() + 1 <= old(self)@.retention_count ==> retired is None,
    {
        let ghost before = self.ring.entries@;
        let ghost entry = rotation.entry@;
        let ghost counter = rotation.ring.nonce_counter;
        let Rotation { entry: new_entry, ring: snapshot } = rotation;
        let snapshot_counter = snapshot.nonce_counter;
        erase_entries(snapshot.entries);
        self.ring.entries.push(new_entry);
        let ghost pushed = entries_view(self.ring.entries@);
        assert(pushed =~= entries_view(before).push(entry));
        self.ring.nonce_counter = snapshot_counter;
        if self.ring.entries.len() > self.retention_count {
            let mut oldest = self.ring.entries.remove(0);
            assert(entries_view(self.ring.entries@) =~= pushed.drop_first());
            assert(oldest@ == pushed[0]);
            oldest.erase_secret();
            Some(oldest)
        } else {
            None
        }
    }
}

} // verus!
