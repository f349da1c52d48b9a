//! The key ring: the persisted list of identity keypairs and the nonce counter.
use vstd::prelude::*;
use zeroize::Zeroize;

use crate::error::PqcError;
use crate::kem::{
    kyber_keypair, kyber_pair, public_key_decodes, secret_key_decodes, PUBLIC_KEY_BYTES,
    SECRET_KEY_BYTES,
};
use crate::nonce::next_counter;
use crate::sealed::{file_counter, sealed_counter};

verus! {

/// Layout version of the key ring record.
pub const FORMAT_VERSION: u32 = 1;

/// One historical identity keypair.
pub struct KeyEntry {
    /// Creation time, in seconds since the Unix epoch.
    pub created_at: i64,
    /// Kyber768 secret key bytes; wiped before the entry is dropped by retention.
    pub secret_key: Vec<u8>,
    /// Kyber768 public key bytes.
    pub public_key: Vec<u8>,
}

/// The mathematical value of a [`KeyEntry`].
pub struct EntryModel {
    pub created_at: i64,
    pub secret_key: Seq<u8>,
    pub public_key: Seq<u8>,
}

impl View for KeyEntry {
    type V = EntryModel;

    open spec fn view(&self) -> EntryModel {
        EntryModel {
            created_at: self.created_at,
            secret_key: self.secret_key@,
            public_key: self.public_key@,
        }
    }
}

/// The full persisted state.
pub struct KeyRing {
    pub format_version: u32,
    /// Counter of the last persisted snapshot; the nonce is derived from it.
    pub nonce_counter: u64,
    /// Oldest first; the last entry is the current identity.
    pub entries: Vec<KeyEntry>,
}

/// The mathematical value of a [`KeyRing`].
pub struct RingModel {
    pub format_version: u32,
    pub nonce_counter: u64,
    pub entries: Seq<EntryModel>,
}

pub open spec fn entries_view(entries: Seq<KeyEntry>) -> Seq<EntryModel> {
    entries.map_values(|e: KeyEntry| e@)
}

impl View for KeyRing {
    type V = RingModel;

    open spec fn view(&self) -> RingModel {
        RingModel {
            format_version: self.format_version,
            nonce_counter: self.nonce_counter,
            entries: entries_view(self.entries@),
        }
    }
}

/// Both keys of the entry decode as keys of the scheme.
pub open spec fn entry_valid(e: EntryModel) -> bool {
    e.public_key.len() == PUBLIC_KEY_BYTES && e.secret_key.len() == SECRET_KEY_BYTES
}

/// The entries of `s` that decode, in their order.
pub open spec fn valid_entries(s: Seq<EntryModel>) -> Seq<EntryModel>
    decreases s.len(),
{
    if s.len() == 0 {
        Seq::empty()
    } else {
        let rest = valid_entries(s.drop_last());
        if entry_valid(s.last()) {
            rest.push(s.last())
        } else {
            rest
        }
    }
}

/// The ring that a keystore starts from when there is no usable file.
pub open spec fn empty_ring() -> RingModel {
    RingModel { format_version: FORMAT_VERSION, nonce_counter: 0, entries: Seq::empty() }
}

/// An empty ring whose nonce counter continues from `counter`.
pub open spec fn restarted_ring(counter: u64) -> RingModel {
    RingModel { format_version: FORMAT_VERSION, nonce_counter: counter, entries: Seq::empty() }
}

/// The larger of two counters.
pub open spec fn max_counter(a: u64, b: u64) -> u64 {
    if a >= b {
        a
    } else {
        b
    }
}

/// The view of what a load produced: no file, a file that failed, or a decoded ring.
pub open spec fn loaded_view(loaded: Option<Result<KeyRing, PqcError>>) -> Option<
    Result<RingModel, PqcError>,
> {
    match loaded {
        None => None,
        Some(Ok(ring)) => Some(Ok(ring@)),
        Some(Err(e)) => Some(Err(e)),
    }
}

/// The ring to start from after a load of the sealed `file`, and whether the file
/// must be quarantined.
///
/// A corrupt file, or one with no valid entry left, is quarantined and the ring
/// starts empty, its nonce counter continuing from the largest counter the file is
/// known to have used, so that no nonce is used twice under the master key. Any
/// other failure is passed on.
pub open spec fn recovered(loaded: Option<Result<RingModel, PqcError>>, file: Seq<u8>) -> Result<
    (RingModel, bool),
    PqcError,
> {
    match loaded {
        None => Ok((empty_ring(), false)),
        Some(Err(PqcError::CorruptionDetected(_))) => Ok((restarted_ring(sealed_counter(file)), true)),
        Some(Err(e)) => Err(e),
        Some(Ok(ring)) => {
            let kept = valid_entries(ring.entries);
            if kept.len() == 0 {
                Ok((restarted_ring(max_counter(ring.nonce_counter, sealed_counter(file))), true))
            } else {
                Ok((RingModel { entries: kept, ..ring }, false))
            }
        },
    }
}

/// No nonce reuse across a quarantine: the ring that replaces a quarantined file
/// carries a counter at least as large as every counter the file is known to have
/// used (the one its nonce carries, and its decoded counter where it decrypted), so
/// the next snapshot is sealed with a strictly larger one.
pub proof fn lemma_quarantine_keeps_counter(
    loaded: Option<Result<RingModel, PqcError>>,
    file: Seq<u8>,
)
    requires
        recovered(loaded, file) is Ok,
        recovered(loaded, file)->Ok_0.1,
    ensures
        recovered(loaded, file)->Ok_0.0.nonce_counter >= sealed_counter(file),
        loaded matches Some(Ok(ring)) ==> recovered(loaded, file)->Ok_0.0.nonce_counter
            >= ring.nonce_counter,
        recovered(loaded, file)->Ok_0.0.entries.len() == 0,
{
}

pub open spec fn recovery_view(r: Result<(KeyRing, bool), PqcError>) -> Result<
    (RingModel, bool),
    PqcError,
> {
    match r {
        Ok((ring, q)) => Ok((ring@, q)),
        Err(e) => Err(e),
    }
}

/// Relies on `zeroize::Zeroize` for `[u8]`: every byte is overwritten with zero,
/// through volatile writes that the compiler keeps.
#[verifier::external_body]
pub(crate) fn wipe(bytes: &mut Vec<u8>)
    ensures
        final(bytes)@.len() == old(bytes)@.len(),
        forall|i: int| 0 <= i < final(bytes)@.len() ==> final(bytes)@[i] == 0u8,
    no_unwind
{
    bytes.as_mut_slice().zeroize();
}

impl KeyEntry {
    /// A copy of this entry.
    pub fn duplicate(&self) -> (r: KeyEntry)
        ensures
            r@ == self@,
    {
        let secret_key = self.secret_key.clone();
        let public_key = self.public_key.clone();
        assert(secret_key@ =~= self.secret_key@);
        assert(public_key@ =~= self.public_key@);
        KeyEntry { created_at: self.created_at, secret_key, public_key }
    }

    /// Whether both keys decode as keys of the scheme.
    pub fn is_valid(&self) -> (r: bool)
        ensures
            r == entry_valid(self@),
    {
        public_key_decodes(self.public_key.as_slice()) && secret_key_decodes(
            self.secret_key.as_slice(),
        )
    }

    /// A fresh keypair, created at `now`.
    pub fn generate(now: i64) -> (r: KeyEntry)
        ensures
            r.created_at == now,
            entry_valid(r@),
            kyber_pair(r.public_key@, r.secret_key@),
    {
        let (public_key, secret_key) = kyber_keypair();
        KeyEntry { created_at: now, secret_key, public_key }
    }

    /// Overwrites the secret key with zeros.
    pub fn erase_secret(&mut self)
        ensures
            final(self).created_at == old(self).created_at,
            final(self).public_key@ == old(self).public_key@,
            final(self).secret_key@.len() == old(self).secret_key@.len(),
            forall|i: int|
                0 <= i < final(self).secret_key@.len() ==> final(self).secret_key@[i] == 0u8,
    {
        wipe(&mut self.secret_key);
    }
}

/// The entries of `entries` whose keys decode, in their order.
pub fn retain_valid(entries: &Vec<KeyEntry>) -> (r: Vec<KeyEntry>)
    ensures
        entries_view(r@) == valid_entries(entries_view(entries@)),
{
    let mut out: Vec<KeyEntry> = Vec::new();
    let mut i: usize = 0;
    while i < entries.len()
        invariant
            i <= entries@.len(),
            entries_view(out@) == valid_entries(entries_view(entries@).take(i as int)),
        decreases entries@.len() - i,
    {
        let e = &entries[i];
        let ghost before = out@;
        if e.is_valid() {
            out.push(e.duplicate());
            assert(entries_view(out@) =~= entries_view(before).push(e@));
        }
        assert(entries_view(entries@).take(i + 1).drop_last() =~= entries_view(entries@).take(
            i as int,
        ));
        i += 1;
    }
    assert(entries_view(entries@).take(i as int) =~= entries_view(entries@));
    out
}

/// Wipes the secret key of every entry before the entries are dropped.
pub fn erase_entries(entries: Vec<KeyEntry>) {
    let mut entries = entries;
    while entries.len() > 0
        decreases entries@.len(),
    {
        match entries.pop() {
            Some(mut e) => e.erase_secret(),
            None => {},
        }
    }
}

impl KeyRing {
    /// An empty ring whose nonce counter continues from `counter`.
    pub fn restarted(counter: u64) -> (r: KeyRing)
        ensures
            r@ == restarted_ring(counter),
    {
        let r = KeyRing { format_version: FORMAT_VERSION, nonce_counter: counter, entries: Vec::new() };
        assert(r@.entries =~= Seq::<EntryModel>::empty());
        r
    }

    /// A ring with no entries and a fresh nonce counter.
    pub fn empty() -> (r: KeyRing)
        ensures
            r@ == empty_ring(),
    {
        let r = KeyRing { format_version: FORMAT_VERSION, nonce_counter: 0, entries: Vec::new() };
        assert(r@.entries =~= Seq::<EntryModel>::empty());
        r
    }
}

/// Decides what a load of the sealed `file` (empty where there is no file) starts
/// from: the decoded ring with its invalid entries dropped, or, where the file was
/// corrupt or kept no valid entry, an empty ring that continues the file's nonce
/// counter and the instruction to quarantine the file. Secret keys that are not
/// kept are wiped.
pub fn recover_ring(loaded: Option<Result<KeyRing, PqcError>>, file: &[u8]) -> (r: Result<
    (KeyRing, bool),
    PqcError,
>)
    ensures
        recovery_view(r) == recovered(loaded_view(loaded), file@),
{
    match loaded {
        None => Ok((KeyRing::empty(), false)),
        Some(Err(PqcError::CorruptionDetected(_))) => Ok((KeyRing::restarted(file_counter(file)), true)),
        Some(Err(e)) => Err(e),
        Some(Ok(ring)) => {
            let kept = retain_valid(&ring.entries);
            let format_version = ring.format_version;
            let nonce_counter = ring.nonce_counter;
            erase_entries(ring.entries);
            if kept.len() == 0 {
                let floor = file_counter(file);
                let counter = if nonce_counter >= floor {
                    nonce_counter
                } else {
                    floor
                };
                Ok((KeyRing::restarted(counter), true))
            } else {
                Ok((KeyRing { format_version, nonce_counter, entries: kept }, false))
            }
        },
    }
}

/// Gives a ring with no entries its first identity: a fresh keypair created at
/// `now`, with the nonce counter advanced for the snapshot that records it.
///
/// Returns the ring and whether it changed and must be persisted.
pub fn ensure_identity(ring: KeyRing, now: i64) -> (r: Result<(KeyRing, bool), PqcError>)
    ensures
        ring@.entries.len() > 0 ==> recovery_view(r) == Ok::<(RingModel, bool), PqcError>(
            (ring@, false),
        ),
        ring@.entries.len() == 0 && ring.nonce_counter == u64::MAX ==> r is Err && r->Err_0
            == PqcError::CipherFailure,
        ring@.entries.len() == 0 && ring.nonce_counter < u64::MAX ==> (r matches Ok((k, fresh))
            && fresh && k@.entries.len() == 1 && k@.entries[0].created_at == now && entry_valid(
            k@.entries[0],
        ) && k.nonce_counter == ring.nonce_counter + 1 && k.format_version
            == ring.format_version),
{
    if ring.entries.len() > 0 {
        return Ok((ring, false));
    }
    match next_counter(ring.nonce_counter) {
        None => Err(PqcError::CipherFailure),
        Some(counter) => {
            let mut entries: Vec<KeyEntry> = Vec::new();
            entries.push(KeyEntry::generate(now));
            let k = KeyRing { format_version: ring.format_version, nonce_counter: counter, entries };
            Ok((k, true))
        },
    }
}

} // verus!
