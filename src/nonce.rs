//! Deterministic nonces for sealing the key file.
//!
//! A nonce is never random: it is the big-endian encoding of the nonce counter in
//! the low eight bytes of a twelve-byte field whose high four bytes are zero.
use vstd::prelude::*;

verus! {

/// Length of an AES-GCM nonce.
pub const NONCE_LEN: usize = 12;

/// The nonce that seals the snapshot carrying `counter`.
pub open spec fn nonce_of(counter: u64) -> Seq<u8> {
    seq![
        0u8,
        0u8,
        0u8,
        0u8,
        (counter >> 56u64) as u8,
        (counter >> 48u64) as u8,
        (counter >> 40u64) as u8,
        (counter >> 32u64) as u8,
        (counter >> 24u64) as u8,
        (counter >> 16u64) as u8,
        (counter >> 8u64) as u8,
        counter as u8,
    ]
}

/// The counter that a nonce carries in its low eight bytes, most significant first.
pub open spec fn counter_in(nonce: Seq<u8>) -> u64 {
    ((nonce[4] as u64) << 56u64) | ((nonce[5] as u64) << 48u64) | ((nonce[6] as u64) << 40u64)
        | ((nonce[7] as u64) << 32u64) | ((nonce[8] as u64) << 24u64) | ((nonce[9] as u64)
        << 16u64) | ((nonce[10] as u64) << 8u64) | (nonce[11] as u64)
}

/// A nonce gives back the counter it was derived from.
pub proof fn lemma_counter_in_nonce(c: u64)
    ensures
        nonce_of(c).len() == NONCE_LEN,
        counter_in(nonce_of(c)) == c,
{
    let n = nonce_of(c);
    let b4 = n[4];
    let b5 = n[5];
    let b6 = n[6];
    let b7 = n[7];
    let b8 = n[8];
    let b9 = n[9];
    let b10 = n[10];
    let b11 = n[11];
    assert(((b4 as u64) << 56u64) | ((b5 as u64) << 48u64) | ((b6 as u64) << 40u64) | ((
    b7 as u64) << 32u64) | ((b8 as u64) << 24u64) | ((b9 as u64) << 16u64) | ((b10 as u64)
        << 8u64) | (b11 as u64) == c) by (bit_vector)
        requires
            b4 == (c >> 56u64) as u8,
            b5 == (c >> 48u64) as u8,
            b6 == (c >> 40u64) as u8,
            b7 == (c >> 32u64) as u8,
            b8 == (c >> 24u64) as u8,
            b9 == (c >> 16u64) as u8,
            b10 == (c >> 8u64) as u8,
            b11 == c as u8,
    ;
}

/// Nonce uniqueness: successive counters give distinct nonces, and the counter that
/// a nonce carries grows strictly with the counter it was derived from.
pub proof fn lemma_nonces_distinct_and_increasing(a: u64, b: u64)
    requires
        a < b,
    ensures
        nonce_of(a) != nonce_of(b),
        counter_in(nonce_of(a)) < counter_in(nonce_of(b)),
{
    lemma_counter_in_nonce(a);
    lemma_counter_in_nonce(b);
}

/// Nonce uniqueness over a run of persists: where each snapshot's counter is one
/// more than the one before, every two snapshots carry distinct nonces, and the
/// later one carries the larger counter.
pub proof fn lemma_persist_run_nonces(counters: Seq<u64>)
    requires
        forall|k: int| 0 <= k < counters.len() - 1 ==> #[trigger] counters[k + 1] == counters[k] + 1,
    ensures
        forall|i: int, j: int|
            0 <= i < j < counters.len() ==> nonce_of(#[trigger] counters[i]) != nonce_of(
                #[trigger] counters[j],
            ) && counter_in(nonce_of(counters[i])) < counter_in(nonce_of(counters[j])),
    decreases counters.len(),
{
    if counters.len() > 1 {
        let rest = counters.drop_last();
        assert forall|k: int| 0 <= k < rest.len() - 1 implies #[trigger] rest[k + 1] == rest[k] + 1 by {
            assert(rest[k + 1] == counters[k + 1] && rest[k] == counters[k]);
        }
        lemma_persist_run_nonces(rest);
        lemma_run_increases(counters);
        assert forall|i: int, j: int| 0 <= i < j < counters.len() implies nonce_of(
            #[trigger] counters[i],
        ) != nonce_of(#[trigger] counters[j]) && counter_in(nonce_of(counters[i])) < counter_in(
            nonce_of(counters[j]),
        ) by {
            lemma_nonces_distinct_and_increasing(counters[i], counters[j]);
        }
    }
}

/// In a run where each counter is one more than the one before, counters grow.
proof fn lemma_run_increases(counters: Seq<u64>)
    requires
        forall|k: int| 0 <= k < counters.len() - 1 ==> #[trigger] counters[k + 1] == counters[k] + 1,
    ensures
        forall|i: int, j: int| 0 <= i < j < counters.len() ==> counters[i] + (j - i) == counters[j],
    decreases counters.len(),
{
    if counters.len() > 1 {
        let rest = counters.drop_last();
        assert forall|k: int| 0 <= k < rest.len() - 1 implies #[trigger] rest[k + 1] == rest[k] + 1 by {
            assert(rest[k + 1] == counters[k + 1] && rest[k] == counters[k]);
        }
        lemma_run_increases(rest);
        assert forall|i: int, j: int| 0 <= i < j < counters.len() implies counters[i] + (j - i)
            == counters[j] by {
            if j < counters.len() - 1 {
                assert(rest[i] == counters[i] && rest[j] == counters[j]);
            } else if i < j - 1 {
                assert(rest[i] == counters[i] && rest[j - 1] == counters[j - 1]);
                let k = j - 1;
                assert(counters[k + 1] == counters[k] + 1);
            } else {
                let k = j - 1;
                assert(counters[k + 1] == counters[k] + 1);
            }
        }
    }
}

/// Derives the nonce for `counter`.
pub fn derive_nonce(counter: u64) -> (r: Vec<u8>)
    ensures
        r@ == nonce_of(counter),
        r@.len() == NONCE_LEN,
{
    let mut v: Vec<u8> = Vec::with_capacity(NONCE_LEN);
    v.push(0u8);
    v.push(0u8);
    v.push(0u8);
    v.push(0u8);
    v.push((counter >> 56u64) as u8);
    v.push((counter >> 48u64) as u8);
    v.push((counter >> 40u64) as u8);
    v.push((counter >> 32u64) as u8);
    v.push((counter >> 24u64) as u8);
    v.push((counter >> 16u64) as u8);
    v.push((counter >> 8u64) as u8);
    v.push(counter as u8);
    assert(v@ =~= nonce_of(counter));
    v
}

/// The counter for the next persisted snapshot: one more than `counter`, or `None`
/// when the counter is exhausted, since a nonce must never be used twice.
pub fn next_counter(counter: u64) -> (r: Option<u64>)
    ensures
        counter < u64::MAX ==> r == Some((counter + 1) as u64),
        counter == u64::MAX ==> r is None,
{
    counter.checked_add(1)
}

} // verus!
