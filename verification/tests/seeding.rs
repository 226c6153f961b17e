use telemetry_panel::schema::{Component, DataSourceConfig, SchemaDocument};
use telemetry_panel::seeding::seed_store;
use telemetry_panel::store::{Reading, Sample, TelemetryStore};

fn source(key: &str) -> DataSourceConfig {
    DataSourceConfig {
        key: key.to_string(),
        id: 1,
        index: 2,
        len: 3,
        endian: 1,
        value_type: "uint8".to_string(),
    }
}

fn mixed_document() -> SchemaDocument {
    SchemaDocument {
        components: vec![
            Component::Label { key: "speed".to_string(), text: None, unit: None },
            Component::Button { key: "reset".to_string(), text: "Reset".to_string() },
            Component::Input { label: "Name".to_string() },
            Component::Graph { key: "rpm".to_string() },
            Component::Graph { key: "rpm".to_string() },
        ],
        data_sources: vec![source("lb1"), source("speed"), source("lb1")],
    }
}

#[test]
fn seeding_with_the_default_document_creates_its_key() {
    let mut store = TelemetryStore::new();
    seed_store(&mut store, &SchemaDocument::default());
    assert!(store.contains("lb0"));
    assert_eq!(store.snapshot("lb0"), Reading { scalar: 0, series: vec![] });
}

#[test]
fn seeding_creates_label_graph_and_source_keys_only() {
    let mut store = TelemetryStore::new();
    seed_store(&mut store, &mixed_document());
    assert!(store.contains("speed"));
    assert!(store.contains("rpm"));
    assert!(store.contains("lb1"));
    assert!(!store.contains("reset"));
    assert!(!store.contains("Name"));
    assert!(!store.contains(""));
}

#[test]
fn seeding_keeps_what_the_store_holds() {
    let mut store = TelemetryStore::new();
    store.write("rpm", 900, 10);
    store.write("elsewhere", 1, 20);
    seed_store(&mut store, &mixed_document());
    assert_eq!(
        store.snapshot("rpm"),
        Reading { scalar: 900, series: vec![Sample { time: 10, value: 900 }] }
    );
    assert_eq!(store.read_scalar("elsewhere"), 1);
    assert_eq!(store.read_scalar("speed"), 0);
}

#[test]
fn seeding_twice_is_seeding_once() {
    let mut store = TelemetryStore::new();
    seed_store(&mut store, &mixed_document());
    store.write("lb1", 4, 1);
    let before = store.snapshot("lb1");
    seed_store(&mut store, &mixed_document());
    assert_eq!(store.snapshot("lb1"), before);
    assert_eq!(store.snapshot("speed"), Reading { scalar: 0, series: vec![] });
}

#[test]
fn seeding_with_an_empty_document_changes_nothing() {
    let mut store = TelemetryStore::new();
    store.write("k", 3, 3);
    seed_store(&mut store, &SchemaDocument { components: vec![], data_sources: vec![] });
    assert_eq!(store.read_scalar("k"), 3);
    assert!(!store.contains("lb0"));
}
