//! Laws of the store, stated over its mathematical model.

use crate::store::{
    consistent, ensured, recent, scalar_of, series_of, written, Sample, StoreModel, CAPACITY,
};
use vstd::prelude::*;

verus! {

/// The store after the samples of `samples` have been written to `key`, one
/// write each, in order.
pub open spec fn written_all(m: StoreModel, key: Seq<char>, samples: Seq<Sample>) -> StoreModel
    decreases samples.len(),
{
    if samples.len() == 0 {
        m
    } else {
        written(
            written_all(m, key, samples.drop_last()),
            key,
            samples.last().value,
            samples.last().time,
        )
    }
}

/// One change to the store.
pub enum Change {
    /// A key is made sure of.
    Ensure { key: Seq<char> },
    /// A value is written to a key.
    Write { key: Seq<char>, value: i64, time: u64 },
}

/// The store after one change.
pub open spec fn changed(m: StoreModel, change: Change) -> StoreModel {
    match change {
        Change::Ensure { key } => ensured(m, key),
        Change::Write { key, value, time } => written(m, key, value, time),
    }
}

/// The store that a run of changes makes of the empty store.
pub open spec fn state_after(changes: Seq<Change>) -> StoreModel
    decreases changes.len(),
{
    if changes.len() == 0 {
        StoreModel::empty()
    } else {
        changed(state_after(changes.drop_last()), changes.last())
    }
}

/// Whether the timestamps of `s` never go back.
pub open spec fn time_ordered(s: Seq<Sample>) -> bool {
    forall|i: int, j: int| 0 <= i <= j < s.len() ==> s[i].time <= s[j].time
}

/// Cutting to the most recent items before and after a sample joins is the
/// same as cutting once after it has joined.
pub proof fn lemma_recent_push(s: Seq<Sample>, x: Sample)
    ensures
        recent(recent(s).push(x)) == recent(s.push(x)),
{
}

/// The empty store is consistent.
pub proof fn lemma_empty_consistent()
    ensures
        consistent(StoreModel::empty()),
{
}

/// Making sure of a key keeps a consistent store consistent.
pub proof fn lemma_ensured_consistent(m: StoreModel, key: Seq<char>)
    requires
        consistent(m),
    ensures
        consistent(ensured(m, key)),
{
}

/// A write keeps a consistent store consistent: no history outgrows the
/// capacity, and the latest value of every key is the value of its newest
/// sample.
pub proof fn lemma_written_consistent(m: StoreModel, key: Seq<char>, value: i64, time: u64)
    requires
        consistent(m),
    ensures
        consistent(written(m, key, value, time)),
{
}

/// Every state that the store can reach is consistent: whatever has been
/// made sure of and written, and in whatever order, no history is longer
/// than the capacity, and the latest value of every key is the value of the
/// newest sample of that key. The two never come apart.
pub proof fn lemma_every_state_is_consistent(changes: Seq<Change>)
    ensures
        consistent(state_after(changes)),
    decreases changes.len(),
{
    if changes.len() > 0 {
        let before = state_after(changes.drop_last());
        lemma_every_state_is_consistent(changes.drop_last());
        match changes.last() {
            Change::Ensure { key } => lemma_ensured_consistent(before, key),
            Change::Write { key, value, time } => lemma_written_consistent(before, key, value, time),
        }
    }
}

/// Making sure of a key twice is the same as doing it once: the second call
/// changes neither a latest value nor a history.
pub proof fn lemma_ensure_idempotent(m: StoreModel, key: Seq<char>)
    ensures
        ensured(ensured(m, key), key) == ensured(m, key),
{
}

/// Making sure of a key changes nothing that the store already holds, and a
/// key that it did not hold reads as zero with an empty history, as it did
/// before.
pub proof fn lemma_ensure_keeps_readings(m: StoreModel, key: Seq<char>, other: Seq<char>)
    ensures
        scalar_of(ensured(m, key), other) == scalar_of(m, other),
        series_of(ensured(m, key), other) == series_of(m, other),
{
}

/// Nothing ever leaves the store: a key that it holds is held after making
/// sure of any key and after any write.
pub proof fn lemma_keys_stay(m: StoreModel, key: Seq<char>, value: i64, time: u64, held: Seq<char>)
    requires
        m.contains_key(held),
    ensures
        ensured(m, key).contains_key(held),
        written(m, key, value, time).contains_key(held),
{
}

/// A write to one key changes no other key.
pub proof fn lemma_write_is_local(
    m: StoreModel,
    key: Seq<char>,
    value: i64,
    time: u64,
    other: Seq<char>,
)
    requires
        other != key,
    ensures
        written(m, key, value, time).contains_key(other) == m.contains_key(other),
        scalar_of(written(m, key, value, time), other) == scalar_of(m, other),
        series_of(written(m, key, value, time), other) == series_of(m, other),
{
}

/// First in, first out: after any run of writes to one key, its history is
/// the most recent `CAPACITY` items of what it held before followed by what
/// was written, in the order of writing, and its latest value is the last
/// value written.
pub proof fn lemma_fifo(m: StoreModel, key: Seq<char>, samples: Seq<Sample>)
    requires
        consistent(m),
    ensures
        series_of(written_all(m, key, samples), key) == recent(series_of(m, key) + samples),
        samples.len() > 0 ==> scalar_of(written_all(m, key, samples), key) == samples.last().value,
    decreases samples.len(),
{
    if samples.len() > 0 {
        let front = samples.drop_last();
        lemma_fifo(m, key, front);
        lemma_recent_push(series_of(m, key) + front, samples.last());
    }
}

/// Once a key has been written `CAPACITY` times or more, its history holds
/// exactly the last `CAPACITY` writes, oldest first.
pub proof fn lemma_fifo_full(m: StoreModel, key: Seq<char>, samples: Seq<Sample>)
    requires
        consistent(m),
        samples.len() >= CAPACITY,
    ensures
        series_of(written_all(m, key, samples), key).len() == CAPACITY,
        series_of(written_all(m, key, samples), key) == samples.subrange(
            samples.len() - CAPACITY,
            samples.len() as int,
        ),
{
    lemma_fifo(m, key, samples);
}

/// A run of writes to one key changes no other key.
pub proof fn lemma_written_all_is_local(
    m: StoreModel,
    key: Seq<char>,
    samples: Seq<Sample>,
    other: Seq<char>,
)
    requires
        other != key,
    ensures
        written_all(m, key, samples).contains_key(other) == m.contains_key(other),
        scalar_of(written_all(m, key, samples), other) == scalar_of(m, other),
        series_of(written_all(m, key, samples), other) == series_of(m, other),
    decreases samples.len(),
{
    if samples.len() > 0 {
        lemma_written_all_is_local(m, key, samples.drop_last(), other);
    }
}

/// Where the clock never goes back, neither does a history: a write whose
/// timestamp is not before that of the newest sample keeps the history
/// ordered by time.
pub proof fn lemma_write_keeps_time_order(m: StoreModel, key: Seq<char>, value: i64, time: u64)
    requires
        time_ordered(series_of(m, key)),
        series_of(m, key).len() > 0 ==> series_of(m, key).last().time <= time,
    ensures
        time_ordered(series_of(written(m, key, value, time), key)),
{
}

} // verus!
