use ggrs_plot_operator::properties::{
    registry, OperatorPropertyReader, OperatorRef, OperatorSettings, PropertyDef, PropertyKind,
    PropertyRegistry, PropertyValue, RawProperty, RegistryError,
};

#[test]
fn test_registry_loads() {
    let reg = registry().unwrap();
    // Check some known properties exist
    assert!(reg.get_property("backend").is_some());
    assert!(reg.get_property("legend.position").is_some());
    assert!(reg.get_property("plot.width").is_some());
}

#[test]
fn test_registry_defaults() {
    let reg = registry().unwrap();
    assert_eq!(reg.get_default("backend"), Some("cpu"));
    assert_eq!(reg.get_default("legend.position"), Some("right"));
    assert_eq!(reg.get_default("png.compression"), Some("fast"));
}

#[test]
fn test_enum_validation() {
    let reg = registry().unwrap();
    assert!(reg.is_valid_enum_value("backend", "cpu"));
    assert!(reg.is_valid_enum_value("backend", "gpu"));
    assert!(!reg.is_valid_enum_value("backend", "invalid"));
}

#[test]
fn enum_values_ignore_ascii_case_and_other_names_accept_anything() {
    let reg = registry().unwrap();
    assert!(reg.is_valid_enum_value("backend", "GPU"));
    assert!(reg.is_valid_enum_value("plot.title", "anything at all"));
    assert!(reg.is_valid_enum_value("no.such.property", "x"));
    assert_eq!(reg.get_default("no.such.property"), None);
    assert!(reg.get_property("no.such.property").is_none());
}

#[test]
fn registry_knows_the_kinds_of_properties() {
    let reg = registry().unwrap();
    let backend = reg.get_property("backend").unwrap();
    assert_eq!(backend.kind, PropertyKind::Enumerated);
    assert_eq!(
        backend.valid_values.clone().unwrap(),
        vec!["cpu".to_string(), "gpu".to_string()]
    );
    let title = reg.get_property("plot.title").unwrap();
    assert_eq!(title.kind, PropertyKind::String);
    assert!(title.valid_values.is_none());
    assert_eq!(reg.get_default("plot.width"), Some("auto"));
    assert_eq!(reg.get_default("heatmap.cell.aggregation"), Some("last"));
}

fn def(name: &str, default: &str, values: Option<Vec<&str>>) -> PropertyDef {
    PropertyDef {
        name: name.to_string(),
        kind: if values.is_some() { PropertyKind::Enumerated } else { PropertyKind::String },
        default_value: default.to_string(),
        description: String::new(),
        valid_values: values.map(|v| v.into_iter().map(|s| s.to_string()).collect()),
    }
}

#[test]
fn later_definition_of_a_name_wins() {
    let reg = PropertyRegistry::from_definitions(vec![
        def("a", "one", None),
        def("b", "x", Some(vec!["x", "y"])),
        def("a", "two", None),
    ]);
    assert_eq!(reg.get_default("a"), Some("two"));
    assert!(reg.is_valid_enum_value("b", "Y"));
    assert!(!reg.is_valid_enum_value("b", "z"));
    assert!(PropertyRegistry::empty().get_property("a").is_none());
}

fn raw(name: Option<&str>, kind: Option<&str>) -> RawProperty {
    RawProperty {
        name: name.map(|s| s.to_string()),
        kind: kind.map(|s| s.to_string()),
        default_value: Some("d".to_string()),
        description: None,
        values: Some(vec![Some("d".to_string()), None, Some("e".to_string())]),
    }
}

#[test]
fn raw_properties_are_validated() {
    let ok = PropertyRegistry::from_raw_properties(&vec![raw(Some("p"), Some("EnumeratedProperty"))])
        .unwrap();
    let p = ok.get_property("p").unwrap();
    assert_eq!(p.valid_values.clone().unwrap(), vec!["d".to_string(), "e".to_string()]);
    let s = PropertyRegistry::from_raw_properties(&vec![raw(Some("s"), Some("StringProperty"))])
        .unwrap();
    assert!(s.get_property("s").unwrap().valid_values.is_none());
    assert_eq!(
        PropertyRegistry::from_raw_properties(&vec![raw(None, Some("StringProperty"))]).err(),
        Some(RegistryError::MissingName)
    );
    assert_eq!(
        PropertyRegistry::from_raw_properties(&vec![raw(Some("p"), None)]).err(),
        Some(RegistryError::MissingKind)
    );
    assert_eq!(
        PropertyRegistry::from_raw_properties(&vec![raw(Some("p"), Some("BooleanProperty"))]).err(),
        Some(RegistryError::UnknownKind("BooleanProperty".to_string()))
    );
}

fn settings(values: Vec<(&str, &str)>) -> OperatorSettings {
    OperatorSettings {
        namespace: "ns".to_string(),
        operator_ref: Some(OperatorRef {
            property_values: values
                .into_iter()
                .map(|(n, v)| PropertyValue { name: n.to_string(), value: v.to_string() })
                .collect(),
        }),
    }
}

#[test]
fn test_property_reader_defaults() {
    let reader = OperatorPropertyReader::new(None);
    assert_eq!(reader.get_enum("backend"), "cpu");
    assert_eq!(reader.get_enum("legend.position"), "right");
    // The numeric reading is done on the text the reader hands out.
    let multiplier: f64 = reader.get_string("point.size.multiplier").parse().unwrap_or(0.0);
    assert_eq!(multiplier, 1.0);
}

#[test]
fn reader_defaults_come_from_the_document() {
    let reader = OperatorPropertyReader::new(None);
    assert_eq!(reader.get_enum("backend"), "cpu");
    assert_eq!(reader.get_enum("legend.position"), "right");
    assert_eq!(reader.get_string("plot.width"), "auto");
    assert_eq!(reader.get_string("no.such.property"), "");
    assert_eq!(reader.get_optional_string("plot.title"), None);
    assert_eq!(reader.get_i32("no.such.property"), 0);
}

#[test]
fn user_values_take_precedence() {
    let s = settings(vec![
        ("backend", "gpu"),
        ("plot.title", "My plot"),
        ("legend.position", "nowhere"),
        ("point.shapes", "15"),
        ("plot.width", ""),
        ("plot.title", "Final title"),
    ]);
    let reader = OperatorPropertyReader::new(Some(&s));
    assert_eq!(reader.get_enum("backend"), "gpu");
    // An invalid enumerated value falls back to the default.
    assert_eq!(reader.get_enum("legend.position"), "right");
    // The later of two values counts.
    assert_eq!(reader.get_optional_string("plot.title"), Some("Final title".to_string()));
    // An empty value counts as unset.
    assert_eq!(reader.get_string("plot.width"), "auto");
    assert_eq!(reader.get_i32("point.shapes"), 15);
}

#[test]
fn integer_properties_fall_back_to_their_default() {
    let s = settings(vec![("point.shapes", "many")]);
    let reader = OperatorPropertyReader::new(Some(&s));
    assert_eq!(reader.get_i32("point.shapes"), 19);
    let s = settings(vec![("axis.x.tick.rotation", "-45")]);
    let reader = OperatorPropertyReader::new(Some(&s));
    assert_eq!(reader.get_i32("axis.x.tick.rotation"), -45);
    let s = OperatorSettings { namespace: String::new(), operator_ref: None };
    let reader = OperatorPropertyReader::new(Some(&s));
    assert_eq!(reader.get_i32("point.shapes"), 19);
}

use ggrs_plot_operator::json::Json;
use ggrs_plot_operator::properties::document_properties;

fn text(s: &str) -> Json {
    Json::Text(s.to_string())
}

#[test]
fn document_entries_are_read_field_by_field() {
    let entry = Json::Object(vec![
        ("name".to_string(), text("backend")),
        ("kind".to_string(), text("EnumeratedProperty")),
        ("defaultValue".to_string(), Json::Number("3".to_string())),
        ("values".to_string(), Json::Array(vec![text("cpu"), Json::Null, text("gpu")])),
    ]);
    let doc = Json::Object(vec![("properties".to_string(), Json::Array(vec![entry, Json::Null]))]);
    let raws = document_properties(&doc).unwrap();
    assert_eq!(raws.len(), 2);
    assert_eq!(raws[0].name, Some("backend".to_string()));
    assert_eq!(raws[0].kind, Some("EnumeratedProperty".to_string()));
    assert_eq!(raws[0].default_value, None);
    assert_eq!(raws[0].description, None);
    assert_eq!(
        raws[0].values,
        Some(vec![Some("cpu".to_string()), None, Some("gpu".to_string())])
    );
    assert_eq!(raws[1].name, None);
    assert!(raws[1].values.is_none());
    assert!(document_properties(&Json::Object(vec![])).is_none());
    assert!(document_properties(&Json::Object(vec![("properties".to_string(), text("x"))])).is_none());
}

#[test]
fn registry_reads_the_same_each_time() {
    let a = registry().unwrap();
    let b = registry().unwrap();
    for name in ["backend", "legend.position", "plot.width", "png.compression", "theme"] {
        assert_eq!(a.get_default(name), b.get_default(name));
    }
    assert_eq!(a.get_default("backend"), Some("cpu"));
}
