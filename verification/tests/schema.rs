use telemetry_panel::graph::GraphType;
use telemetry_panel::persist::{save_target, CONFIG_DIR, CONFIG_FILE};
use telemetry_panel::schema::{Component, DataSourceConfig, SchemaDocument};

fn canonical() -> SchemaDocument {
    SchemaDocument {
        components: vec![Component::Label {
            key: "lb0".to_string(),
            text: Some("預設標籤".to_string()),
            unit: Some("unit".to_string()),
        }],
        data_sources: vec![DataSourceConfig {
            key: "lb0".to_string(),
            id: 0,
            index: 0,
            len: 2,
            endian: 0,
            value_type: "float32".to_string(),
        }],
    }
}

#[test]
fn the_default_document_is_the_canonical_one() {
    assert_eq!(SchemaDocument::default(), canonical());
}

#[test]
fn a_failed_load_gives_the_whole_default() {
    assert_eq!(SchemaDocument::or_default(None), canonical());
}

#[test]
fn a_loaded_document_is_kept_as_it_is() {
    let loaded = SchemaDocument {
        components: vec![
            Component::Graph { key: "lb3".to_string() },
            Component::Input { label: "".to_string() },
        ],
        data_sources: vec![],
    };
    assert_eq!(SchemaDocument::or_default(Some(loaded.clone())), loaded);
    let empty = SchemaDocument { components: vec![], data_sources: vec![] };
    assert_eq!(SchemaDocument::or_default(Some(empty.clone())), empty);
}

#[test]
fn labels_and_graphs_bind_data() {
    let label = Component::Label { key: "a".to_string(), text: None, unit: None };
    let graph = Component::Graph { key: "b".to_string() };
    let button = Component::Button { key: "c".to_string(), text: "Go".to_string() };
    let input = Component::Input { label: "d".to_string() };
    assert_eq!(label.data_key(), Some(&"a".to_string()));
    assert_eq!(graph.data_key(), Some(&"b".to_string()));
    assert_eq!(button.data_key(), None);
    assert_eq!(input.data_key(), None);
}

#[test]
fn a_save_goes_to_the_first_place_that_is_known() {
    assert_eq!(save_target(Some("given"), Some("configured"), "fallback"), "given");
    assert_eq!(save_target(Some("given"), None, "fallback"), "given");
    assert_eq!(save_target(None, Some("configured"), "fallback"), "configured");
    assert_eq!(save_target::<&str>(None, None, "fallback"), "fallback");
}

#[test]
fn the_document_lives_in_data_yaml_under_egui_app() {
    assert_eq!(CONFIG_DIR, "egui-app");
    assert_eq!(CONFIG_FILE, "data.yaml");
}

#[test]
fn graph_types_are_told_apart() {
    assert_eq!(GraphType::Triangle, GraphType::Triangle);
    assert_ne!(GraphType::Triangle, GraphType::SinWave);
}
