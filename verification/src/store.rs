//! The keyed telemetry store: for every channel key the latest value and a
//! bounded, oldest-first history of timestamped samples.
//!
//! Values are whole numbers and timestamps are whole milliseconds on the
//! host's monotonic clock. The store is one composite value: the latest value
//! and the history of a key change together, in a single call, so whoever
//! holds the store sees them paired.

use std::collections::VecDeque;
use vstd::hash_map::StringHashMap;
use vstd::prelude::*;

verus! {

/// The number of samples that the history of one key keeps.
pub const CAPACITY: usize = 200;

/// One observation of a channel.
#[derive(Clone, Copy, Debug, PartialEq, Eq, Structural)]
pub struct Sample {
    /// Milliseconds on the host's monotonic clock.
    pub time: u64,
    /// The channel's value at that time.
    pub value: i64,
}

/// What the store holds for one key at one moment, read in one piece.
#[derive(Clone, Debug, PartialEq, Eq)]
pub struct Reading {
    /// The latest value.
    pub scalar: i64,
    /// The history, oldest first.
    pub series: Vec<Sample>,
}

/// What the store holds for one key, as a mathematical value.
pub struct ChannelView {
    /// The latest value.
    pub scalar: i64,
    /// The history, oldest first.
    pub series: Seq<Sample>,
}

/// The store as a mathematical value: a map from key to channel.
pub type StoreModel = Map<Seq<char>, ChannelView>;

/// The channel of a key that has been created and never written.
pub open spec fn fresh_channel() -> ChannelView {
    ChannelView { scalar: 0, series: Seq::empty() }
}

/// The last `CAPACITY` items of `s`, or all of `s` where it holds fewer.
pub open spec fn recent(s: Seq<Sample>) -> Seq<Sample> {
    if s.len() <= CAPACITY {
        s
    } else {
        s.subrange(s.len() - CAPACITY, s.len() as int)
    }
}

/// The latest value of `key`; zero for a key that the store does not hold.
pub open spec fn scalar_of(m: StoreModel, key: Seq<char>) -> i64 {
    if m.contains_key(key) {
        m[key].scalar
    } else {
        0
    }
}

/// The history of `key`; empty for a key that the store does not hold.
pub open spec fn series_of(m: StoreModel, key: Seq<char>) -> Seq<Sample> {
    if m.contains_key(key) {
        m[key].series
    } else {
        Seq::empty()
    }
}

/// The store after `key` has been made sure of: a held key keeps its channel,
/// a new one gets a fresh channel.
pub open spec fn ensured(m: StoreModel, key: Seq<char>) -> StoreModel {
    if m.contains_key(key) {
        m
    } else {
        m.insert(key, fresh_channel())
    }
}

/// The store after one write: the latest value of `key` is `value`, and its
/// history is the old one followed by the new sample, cut to the most recent
/// `CAPACITY` items. Every other key is untouched.
pub open spec fn written(m: StoreModel, key: Seq<char>, value: i64, time: u64) -> StoreModel {
    m.insert(
        key,
        ChannelView {
            scalar: value,
            series: recent(series_of(m, key).push(Sample { time, value })),
        },
    )
}

/// A channel whose history is within capacity and whose latest value is the
/// value of its newest sample (zero where it has no sample yet).
pub open spec fn channel_consistent(c: ChannelView) -> bool {
    &&& c.series.len() <= CAPACITY
    &&& c.series.len() > 0 ==> c.series.last().value == c.scalar
    &&& c.series.len() == 0 ==> c.scalar == 0
}

/// A store all of whose channels are consistent.
pub open spec fn consistent(m: StoreModel) -> bool {
    forall|k: Seq<char>| m.contains_key(k) ==> channel_consistent(#[trigger] m[k])
}

impl View for Reading {
    type V = ChannelView;

    open spec fn view(&self) -> ChannelView {
        ChannelView { scalar: self.scalar, series: self.series@ }
    }
}

/// One channel as the store keeps it.
struct Channel {
    scalar: i64,
    series: VecDeque<Sample>,
}

impl Channel {
    spec fn model(&self) -> ChannelView {
        ChannelView { scalar: self.scalar, series: self.series@ }
    }

    /// A channel with the value zero and an empty history, with room for a
    /// full one.
    fn fresh() -> (c: Channel)
        ensures
            c.model() == fresh_channel(),
    {
        Channel { scalar: 0, series: VecDeque::with_capacity(CAPACITY) }
    }

    /// Takes `value` as the latest value and `(time, value)` as the newest
    /// sample; a full history gives up its oldest sample first.
    fn record(&mut self, value: i64, time: u64)
        requires
            channel_consistent(old(self).model()),
        ensures
            final(self).model().scalar == value,
            final(self).model().series == recent(old(self).model().series.push(Sample { time, value })),
            channel_consistent(final(self).model()),
    {
        self.scalar = value;
        if self.series.len() >= CAPACITY {
            self.series.pop_front();
        }
        self.series.push_back(Sample { time, value });
    }
}

/// Whether an index and the channels it points into fit together: every
/// indexed slot exists, no two keys share a slot, and every channel is
/// consistent.
spec fn parts_fit(index: Map<Seq<char>, usize>, channels: Seq<Channel>) -> bool {
    &&& forall|k: Seq<char>| #[trigger] index.contains_key(k) ==> index[k] < channels.len()
    &&& forall|j: Seq<char>, k: Seq<char>|
        #![trigger index[j], index[k]]
        index.contains_key(j) && index.contains_key(k) && index[j] == index[k] ==> j == k
    &&& forall|i: int|
        0 <= i < channels.len() ==> channel_consistent(#[trigger] channels[i].model())
}

/// The store that an index and its channels stand for.
spec fn parts_model(index: Map<Seq<char>, usize>, channels: Seq<Channel>) -> StoreModel {
    Map::new(|k: Seq<char>| index.contains_key(k), |k: Seq<char>| channels[index[k] as int].model())
}

/// The slot of `key`, which is created with a fresh channel where the index
/// does not hold it yet.
fn slot_for(index: &mut StringHashMap<usize>, channels: &mut Vec<Channel>, key: &str) -> (slot:
    usize)
    requires
        parts_fit(old(index)@, old(channels)@),
    ensures
        parts_fit(final(index)@, final(channels)@),
        final(index)@.contains_key(key@),
        final(index)@[key@] == slot,
        parts_model(final(index)@, final(channels)@) == ensured(
            parts_model(old(index)@, old(channels)@),
            key@,
        ),
{
    match index.get(key) {
        Some(slot) => *slot,
        None => {
            let slot = channels.len();
            channels.push(Channel::fresh());
            index.insert(key.to_owned(), slot);
            assert(parts_model(index@, channels@) =~= ensured(
                parts_model(old(index)@, old(channels)@),
                key@,
            ));
            slot
        },
    }
}

/// The telemetry store. It keeps an index from key to slot and one channel
/// per slot; nothing ever leaves it. Whatever is done to it, every channel
/// stays consistent: see `consistent`.
pub struct TelemetryStore {
    index: StringHashMap<usize>,
    channels: Vec<Channel>,
}

impl View for TelemetryStore {
    type V = StoreModel;

    closed spec fn view(&self) -> StoreModel {
        parts_model(self.index@, self.channels@)
    }
}

impl TelemetryStore {
    #[verifier::type_invariant]
    spec fn inv(&self) -> bool {
        parts_fit(self.index@, self.channels@)
    }

    /// An empty store.
    pub fn new() -> (store: TelemetryStore)
        ensures
            store@ == StoreModel::empty(),
            consistent(store@),
    {
        TelemetryStore { index: StringHashMap::new(), channels: Vec::new() }
    }

    /// Whether the store holds `key`.
    pub fn contains(&self, key: &str) -> (held: bool)
        ensures
            held == self@.contains_key(key@),
    {
        self.index.contains_key(key)
    }

    /// Makes sure that the store holds `key`: a new key gets the value zero
    /// and an empty history, a held key is left as it is.
    pub fn ensure_key(&mut self, key: &str)
        ensures
            final(self)@ == ensured(old(self)@, key@),
            consistent(final(self)@),
    {
        let mut taken = TelemetryStore::new();
        std::mem::swap(self, &mut taken);
        proof {
            use_type_invariant(&taken);
        }
        let TelemetryStore { mut index, mut channels } = taken;
        let _ = slot_for(&mut index, &mut channels, key);
        *self = TelemetryStore { index, channels };
    }

    /// Records one observation of `key`: its latest value becomes `value`
    /// and the sample `(time, value)` joins its history as the newest. A
    /// history that is full loses its oldest sample first. A key that the
    /// store does not hold is created by the write.
    pub fn write(&mut self, key: &str, value: i64, time: u64)
        ensures
            final(self)@ == written(old(self)@, key@, value, time),
            consistent(final(self)@),
    {
        let mut taken = TelemetryStore::new();
        std::mem::swap(self, &mut taken);
        proof {
            use_type_invariant(&taken);
        }
        let TelemetryStore { mut index, mut channels } = taken;
        let slot = slot_for(&mut index, &mut channels, key);
        let ghost before = channels@;
        assert(parts_model(index@, before)[key@] == before[slot as int].model());
        channels[slot].record(value, time);
        *self = TelemetryStore { index, channels };
        let ghost goal = written(old(self)@, key@, value, time);
        assert(parts_model(index@, before) == ensured(old(self)@, key@));
        assert forall|k: Seq<char>| self@.contains_key(k) && k != key@ implies self@[k] == goal[k] by {
            assert(parts_model(index@, before)[k] == old(self)@[k]);
        }
    }

    /// The latest value of `key`, or zero for a key that the store does not
    /// hold.
    pub fn read_scalar(&self, key: &str) -> (value: i64)
        ensures
            value == scalar_of(self@, key@),
    {
        proof {
            use_type_invariant(self);
        }
        match self.index.get(key) {
            Some(slot) => self.channels[*slot].scalar,
            None => 0,
        }
    }

    /// A copy of the history of `key`, oldest first; empty for a key that the
    /// store does not hold.
    pub fn read_series(&self, key: &str) -> (series: Vec<Sample>)
        ensures
            series@ == series_of(self@, key@),
            series@.len() <= CAPACITY,
    {
        proof {
            use_type_invariant(self);
        }
        let mut series: Vec<Sample> = Vec::new();
        match self.index.get(key) {
            Some(slot) => {
                assert(channel_consistent(self.channels@[*slot as int].model()));
                let held = &self.channels[*slot].series;
                let n = held.len();
                let mut i: usize = 0;
                while i < n
                    invariant
                        n == held@.len(),
                        i <= n,
                        series@ == held@.subrange(0, i as int),
                    decreases n - i,
                {
                    series.push(held[i]);
                    i += 1;
                }
            },
            None => {},
        }
        series
    }

    /// The latest value and the history of `key`, taken together. The two
    /// always fit: the history is within capacity, and the latest value is
    /// the value of its newest sample, or zero where there is none yet.
    pub fn snapshot(&self, key: &str) -> (reading: Reading)
        ensures
            reading.scalar == scalar_of(self@, key@),
            reading.series@ == series_of(self@, key@),
            channel_consistent(reading@),
    {
        proof {
            use_type_invariant(self);
            if self.index@.contains_key(key@) {
                assert(channel_consistent(self.channels@[self.index@[key@] as int].model()));
            }
        }
        Reading { scalar: self.read_scalar(key), series: self.read_series(key) }
    }
}

} // verus!
