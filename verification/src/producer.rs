//! The synthetic producer: at every tick each configured channel moves by
//! the number in its key, up or down as a coin falls, and the new value is
//! written to the store with the time of the tick.

use crate::key_number::{extract_number, key_number};
use crate::laws::{lemma_write_keeps_time_order, time_ordered};
use crate::schema::DataSourceConfig;
use crate::store::{consistent, scalar_of, series_of, written, Sample, StoreModel, TelemetryStore};
use vstd::prelude::*;

verus! {

/// The time from one tick of the producer to the next, in milliseconds.
pub const TICK_MILLIS: u64 = 100;

/// Throws a fair coin with `rand::random`, which draws from the thread's
/// generator. Nothing is claimed of the outcome: two throws may differ.
#[verifier::external_body]
fn coin() -> bool {
    rand::random()
}

/// The size of the steps that the channel `key` takes: the number in the
/// key, or zero for a key that carries none.
pub open spec fn magnitude_of(key: Seq<char>) -> u32 {
    match key_number(key) {
        Some(n) => n,
        None => 0,
    }
}

/// The value one step of size `magnitude` away from `current`, above it or
/// below, held at the end of the 64-bit range where the step would leave it.
pub open spec fn moved(current: i64, magnitude: u32, upward: bool) -> i64 {
    let target = if upward {
        current + magnitude
    } else {
        current - magnitude
    };
    if target > i64::MAX {
        i64::MAX
    } else if target < i64::MIN {
        i64::MIN
    } else {
        target as i64
    }
}

/// The store after the channel `key` has taken one step at the time `now`.
/// A channel that the store holds steps from its latest value. One that it
/// does not hold steps from `magnitude` itself.
pub open spec fn stepped(
    m: StoreModel,
    key: Seq<char>,
    magnitude: u32,
    upward: bool,
    now: u64,
) -> StoreModel {
    let current = if m.contains_key(key) {
        m[key].scalar
    } else {
        magnitude as i64
    };
    written(m, key, moved(current, magnitude, upward), now)
}

/// The keys of a list of data sources, in order.
pub open spec fn keys_of(sources: Seq<DataSourceConfig>) -> Seq<Seq<char>> {
    Seq::new(sources.len(), |i: int| sources[i].key@)
}

/// The store after one tick at the time `now`: the channels of `keys` have
/// stepped one after the other, each by the number in its key, the i-th
/// upward where `ups[i]` holds and downward where it does not.
pub open spec fn ticked(m: StoreModel, keys: Seq<Seq<char>>, ups: Seq<bool>, now: u64) -> StoreModel
    decreases keys.len(),
{
    if keys.len() == 0 {
        m
    } else {
        stepped(
            ticked(m, keys.drop_last(), ups.drop_last(), now),
            keys.last(),
            magnitude_of(keys.last()),
            ups.last(),
            now,
        )
    }
}

/// The value one step away from `current`.
fn move_by(current: i64, magnitude: u32, upward: bool) -> (next: i64)
    ensures
        next == moved(current, magnitude, upward),
{
    if upward {
        match current.checked_add(magnitude as i64) {
            Some(v) => v,
            None => i64::MAX,
        }
    } else {
        match current.checked_sub(magnitude as i64) {
            Some(v) => v,
            None => i64::MIN,
        }
    }
}

/// Moves the channel `key` one step of size `magnitude`, upward or downward,
/// and records the new value with the timestamp `now`.
pub fn step(store: &mut TelemetryStore, key: &str, magnitude: u32, upward: bool, now: u64)
    ensures
        final(store)@ == stepped(old(store)@, key@, magnitude, upward, now),
        consistent(final(store)@),
{
    let current = if store.contains(key) {
        store.read_scalar(key)
    } else {
        magnitude as i64
    };
    store.write(key, move_by(current, magnitude, upward), now);
}

/// One tick of the producer at the time `now`: every data source of
/// `sources`, in order, steps by the number in its key (by zero where the key
/// carries none), upward or downward as a coin falls. Whatever the coin
/// shows, the outcome is the tick for some choice of directions.
pub fn tick(store: &mut TelemetryStore, sources: &Vec<DataSourceConfig>, now: u64)
    ensures
        exists|ups: Seq<bool>|
            ups.len() == sources@.len() && final(store)@ == #[trigger] ticked(
                old(store)@,
                keys_of(sources@),
                ups,
                now,
            ),
        consistent(old(store)@) ==> consistent(final(store)@),
{
    let ghost start = store@;
    let ghost keys = keys_of(sources@);
    let ghost mut ups: Seq<bool> = Seq::empty();
    let mut i: usize = 0;
    while i < sources.len()
        invariant
            i <= sources@.len(),
            keys == keys_of(sources@),
            ups.len() == i,
            store@ == ticked(start, keys.subrange(0, i as int), ups, now),
            consistent(start) ==> consistent(store@),
        decreases sources@.len() - i,
    {
        let key = sources[i].key.as_str();
        let magnitude = match extract_number(key) {
            Some(n) => n,
            None => 0,
        };
        let upward = coin();
        step(store, key, magnitude, upward, now);
        proof {
            let longer = keys.subrange(0, i + 1);
            assert(longer.drop_last() =~= keys.subrange(0, i as int));
            assert(ups.push(upward).drop_last() =~= ups);
            ups = ups.push(upward);
        }
        i += 1;
    }
    assert(keys.subrange(0, sources@.len() as int) =~= keys);
}

/// A step is bounded: the new value is at most `magnitude` away from the
/// old one, and exactly that far wherever the 64-bit range has room.
pub proof fn lemma_step_is_bounded(current: i64, magnitude: u32, upward: bool)
    ensures
        -magnitude <= moved(current, magnitude, upward) - current <= magnitude,
        upward && current + magnitude <= i64::MAX ==> moved(current, magnitude, upward) == current
            + magnitude,
        !upward && current - magnitude >= i64::MIN ==> moved(current, magnitude, upward) == current
            - magnitude,
{
}

/// A step leaves the channel with a newest sample that carries the time of
/// the step and the channel's latest value.
pub proof fn lemma_step_stamps(m: StoreModel, key: Seq<char>, magnitude: u32, upward: bool, now: u64)
    ensures
        series_of(stepped(m, key, magnitude, upward, now), key).len() > 0,
        series_of(stepped(m, key, magnitude, upward, now), key).last() == (Sample {
            time: now,
            value: scalar_of(stepped(m, key, magnitude, upward, now), key),
        }),
{
}

/// A tick leaves every channel that it steps with a newest sample that
/// carries the time of the tick and the channel's latest value.
pub proof fn lemma_tick_stamps(
    m: StoreModel,
    keys: Seq<Seq<char>>,
    ups: Seq<bool>,
    now: u64,
    key: Seq<char>,
)
    requires
        keys.contains(key),
    ensures
        series_of(ticked(m, keys, ups, now), key).len() > 0,
        series_of(ticked(m, keys, ups, now), key).last() == (Sample {
            time: now,
            value: scalar_of(ticked(m, keys, ups, now), key),
        }),
    decreases keys.len(),
{
    let front = ticked(m, keys.drop_last(), ups.drop_last(), now);
    if keys.last() == key {
        lemma_step_stamps(front, key, magnitude_of(key), ups.last(), now);
    } else {
        let i = choose|i: int| 0 <= i < keys.len() && keys[i] == key;
        assert(keys.drop_last()[i] == key);
        lemma_tick_stamps(m, keys.drop_last(), ups.drop_last(), now, key);
    }
}

/// A tick removes nothing: the store holds afterwards every key that it held
/// before, and every key that the tick steps.
pub proof fn lemma_tick_keeps_keys(
    m: StoreModel,
    keys: Seq<Seq<char>>,
    ups: Seq<bool>,
    now: u64,
    key: Seq<char>,
)
    requires
        m.contains_key(key) || keys.contains(key),
    ensures
        ticked(m, keys, ups, now).contains_key(key),
    decreases keys.len(),
{
    if keys.len() > 0 && keys.last() != key {
        if !m.contains_key(key) {
            let i = choose|i: int| 0 <= i < keys.len() && keys[i] == key;
            assert(keys.drop_last()[i] == key);
        }
        lemma_tick_keeps_keys(m, keys.drop_last(), ups.drop_last(), now, key);
    }
}

/// A tick changes no channel but those it steps.
pub proof fn lemma_tick_is_local(
    m: StoreModel,
    keys: Seq<Seq<char>>,
    ups: Seq<bool>,
    now: u64,
    other: Seq<char>,
)
    requires
        !keys.contains(other),
    ensures
        ticked(m, keys, ups, now).contains_key(other) == m.contains_key(other),
        scalar_of(ticked(m, keys, ups, now), other) == scalar_of(m, other),
        series_of(ticked(m, keys, ups, now), other) == series_of(m, other),
    decreases keys.len(),
{
    if keys.len() > 0 {
        lemma_tick_is_local(m, keys.drop_last(), ups.drop_last(), now, other);
    }
}

/// Where the clock never goes back, neither does a history across ticks: a
/// tick whose time is not before that of the newest sample of a key keeps
/// the history of that key ordered by time.
pub proof fn lemma_tick_keeps_time_order(
    m: StoreModel,
    keys: Seq<Seq<char>>,
    ups: Seq<bool>,
    now: u64,
    key: Seq<char>,
)
    requires
        time_ordered(series_of(m, key)),
        series_of(m, key).len() > 0 ==> series_of(m, key).last().time <= now,
    ensures
        time_ordered(series_of(ticked(m, keys, ups, now), key)),
        series_of(ticked(m, keys, ups, now), key).len() > 0 ==> series_of(
            ticked(m, keys, ups, now),
            key,
        ).last().time <= now,
    decreases keys.len(),
{
    if keys.len() > 0 {
        let front = ticked(m, keys.drop_last(), ups.drop_last(), now);
        lemma_tick_keeps_time_order(m, keys.drop_last(), ups.drop_last(), now, key);
        if keys.last() == key {
            let current = if front.contains_key(key) {
                front[key].scalar
            } else {
                magnitude_of(key) as i64
            };
            lemma_write_keeps_time_order(
                front,
                key,
                moved(current, magnitude_of(key), ups.last()),
                now,
            );
        }
    }
}

} // verus!
