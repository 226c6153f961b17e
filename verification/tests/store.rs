use telemetry_panel::store::{Reading, Sample, TelemetryStore, CAPACITY};

fn sample(time: u64, value: i64) -> Sample {
    Sample { time, value }
}

#[test]
fn capacity_is_two_hundred() {
    assert_eq!(CAPACITY, 200);
}

#[test]
fn unknown_key_reads_defaults() {
    let store = TelemetryStore::new();
    assert_eq!(store.read_scalar("nothing"), 0);
    assert!(store.read_series("nothing").is_empty());
    assert!(!store.contains("nothing"));
    assert_eq!(store.snapshot("nothing"), Reading { scalar: 0, series: vec![] });
}

#[test]
fn ensure_key_creates_a_zero_channel() {
    let mut store = TelemetryStore::new();
    store.ensure_key("lb1");
    assert!(store.contains("lb1"));
    assert_eq!(store.read_scalar("lb1"), 0);
    assert!(store.read_series("lb1").is_empty());
}

#[test]
fn ensure_key_twice_changes_nothing() {
    let mut store = TelemetryStore::new();
    store.ensure_key("lb1");
    let first = store.snapshot("lb1");
    store.ensure_key("lb1");
    assert_eq!(store.snapshot("lb1"), first);

    store.write("lb2", 7, 100);
    store.ensure_key("lb2");
    let once = store.snapshot("lb2");
    store.ensure_key("lb2");
    assert_eq!(store.snapshot("lb2"), once);
    assert_eq!(once, Reading { scalar: 7, series: vec![sample(100, 7)] });
}

#[test]
fn write_sets_the_scalar_and_appends_the_sample() {
    let mut store = TelemetryStore::new();
    store.write("lb1", 5, 100);
    store.write("lb1", -2, 200);
    assert_eq!(store.read_scalar("lb1"), -2);
    assert_eq!(store.read_series("lb1"), vec![sample(100, 5), sample(200, -2)]);
}

#[test]
fn write_creates_a_key_that_is_not_held() {
    let mut store = TelemetryStore::new();
    assert!(!store.contains("fresh"));
    store.write("fresh", 9, 1);
    assert!(store.contains("fresh"));
    assert_eq!(store.snapshot("fresh"), Reading { scalar: 9, series: vec![sample(1, 9)] });
}

#[test]
fn write_to_one_key_leaves_the_others() {
    let mut store = TelemetryStore::new();
    store.write("a", 1, 10);
    store.write("b", 2, 20);
    store.write("a", 3, 30);
    assert_eq!(store.snapshot("b"), Reading { scalar: 2, series: vec![sample(20, 2)] });
    assert_eq!(store.read_series("a"), vec![sample(10, 1), sample(30, 3)]);
    assert!(!store.contains("c"));
}

#[test]
fn a_full_history_keeps_every_sample() {
    let mut store = TelemetryStore::new();
    for i in 0..CAPACITY as u64 {
        store.write("k", i as i64, i);
    }
    let series = store.read_series("k");
    assert_eq!(series.len(), CAPACITY);
    assert_eq!(series[0], sample(0, 0));
    assert_eq!(series[CAPACITY - 1], sample(199, 199));
}

#[test]
fn one_write_past_capacity_evicts_the_oldest_only() {
    let mut store = TelemetryStore::new();
    for i in 0..=CAPACITY as u64 {
        store.write("k", i as i64, i);
    }
    let series = store.read_series("k");
    assert_eq!(series.len(), CAPACITY);
    assert_eq!(series[0], sample(1, 1));
    assert_eq!(series[1], sample(2, 2));
    assert_eq!(series[CAPACITY - 1], sample(200, 200));
}

#[test]
fn history_is_cut_to_the_last_writes() {
    let mut store = TelemetryStore::new();
    let mut written = Vec::new();
    for i in 0..1000u64 {
        let value = (i as i64 * 37) % 101 - 50;
        store.write("lb3", value, i * 100);
        written.push(sample(i * 100, value));
    }
    let series = store.read_series("lb3");
    assert_eq!(series.len(), 200);
    assert_eq!(series, written[800..].to_vec());
    assert_eq!(store.read_scalar("lb3"), written[999].value);
}

#[test]
fn every_reading_pairs_the_scalar_with_the_newest_sample() {
    let mut store = TelemetryStore::new();
    store.ensure_key("k");
    for i in 0..450u64 {
        let reading = store.snapshot("k");
        assert!(reading.series.len() <= CAPACITY);
        match reading.series.last() {
            Some(newest) => assert_eq!(newest.value, reading.scalar),
            None => assert_eq!(reading.scalar, 0),
        }
        store.write("k", 1000 - i as i64, i);
    }
    assert_eq!(store.snapshot("k").scalar, 551);
}

#[test]
fn keys_are_told_apart_exactly() {
    let mut store = TelemetryStore::new();
    store.write("lb1", 1, 1);
    store.write("lb10", 10, 1);
    store.write("LB1", 100, 1);
    store.write("", 1000, 1);
    assert_eq!(store.read_scalar("lb1"), 1);
    assert_eq!(store.read_scalar("lb10"), 10);
    assert_eq!(store.read_scalar("LB1"), 100);
    assert_eq!(store.read_scalar(""), 1000);
    assert_eq!(store.read_scalar("lb"), 0);
}

#[test]
fn extreme_values_and_times_are_kept_as_written() {
    let mut store = TelemetryStore::new();
    store.write("k", i64::MIN, 0);
    store.write("k", i64::MAX, u64::MAX);
    assert_eq!(store.read_series("k"), vec![sample(0, i64::MIN), sample(u64::MAX, i64::MAX)]);
    assert_eq!(store.read_scalar("k"), i64::MAX);
}
