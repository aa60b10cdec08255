use ggrs_plot_operator::json::{field, text_field, Json};

fn t(s: &str) -> Json {
    Json::Text(s.to_string())
}

#[test]
fn fields_of_objects() {
    let doc = Json::Object(vec![
        ("a".to_string(), t("x")),
        ("n".to_string(), Json::Number("12".to_string())),
        ("l".to_string(), Json::Array(vec![Json::Null, t("two")])),
    ]);
    assert_eq!(text_field(&doc, "a"), Some("x".to_string()));
    assert_eq!(text_field(&doc, "n"), None);
    assert!(matches!(field(&doc, "n"), Some(Json::Number(s)) if s == "12"));
    match field(&doc, "l") {
        Some(Json::Array(items)) => assert_eq!(items.len(), 2),
        other => panic!("unexpected {:?}", other),
    }
    assert!(field(&doc, "missing").is_none());
}

#[test]
fn fields_of_non_objects_are_absent() {
    assert!(field(&Json::Array(vec![t("a")]), "a").is_none());
    assert!(text_field(&t("a"), "a").is_none());
    assert!(field(&Json::Null, "a").is_none());
}

#[test]
fn first_entry_of_a_key_counts() {
    let doc = Json::Object(vec![("k".to_string(), t("first")), ("k".to_string(), t("second"))]);
    assert_eq!(text_field(&doc, "k"), Some("first".to_string()));
}
