use lowmain::document::to_document;
use lowmain::json::JsonValue;
use neo4rs::BoltFloat;

fn parsed(text: &str) -> serde_json::Value {
    serde_json::from_str(text).unwrap()
}

#[test]
fn scalars_become_documents() {
    assert_eq!(to_document(JsonValue::Null), serde_json::Value::Null);
    assert_eq!(to_document(JsonValue::Bool(true)), serde_json::Value::Bool(true));
    assert_eq!(to_document(JsonValue::Integer(-7)), parsed("-7"));
    assert_eq!(to_document(JsonValue::Unsigned(7)), parsed("7"));
    assert_eq!(to_document(JsonValue::Integer(7)), to_document(JsonValue::Unsigned(7)));
    assert_eq!(to_document(JsonValue::Unsigned(u64::MAX)), parsed("18446744073709551615"));
    assert_eq!(to_document(JsonValue::Integer(i64::MIN)), parsed("-9223372036854775808"));
    assert_eq!(to_document(JsonValue::String("a\"b".to_string())), parsed(r#""a\"b""#));
    assert_eq!(to_document(JsonValue::Float(BoltFloat::new(1.5))), parsed("1.5"));
    assert_eq!(
        to_document(JsonValue::Float(BoltFloat::new(f64::INFINITY))),
        serde_json::Value::Null
    );
    assert_eq!(to_document(JsonValue::Document(parsed(r#"{"a":[1]}"#))), parsed(r#"{"a":[1]}"#));
}

#[test]
fn arrays_keep_their_order() {
    let value = JsonValue::Array(vec![
        JsonValue::Integer(3),
        JsonValue::String("x".to_string()),
        JsonValue::Array(vec![JsonValue::Null, JsonValue::Bool(false)]),
        JsonValue::Integer(1),
    ]);
    assert_eq!(to_document(value), parsed(r#"[3,"x",[null,false],1]"#));
    assert_eq!(to_document(JsonValue::Array(vec![])), parsed("[]"));
}

#[test]
fn objects_hold_every_field_under_its_key() {
    let value = JsonValue::Object(vec![
        ("_id".to_string(), JsonValue::Integer(4)),
        ("_labels".to_string(), JsonValue::Array(vec![JsonValue::String("P".to_string())])),
        ("name".to_string(), JsonValue::String("Ann".to_string())),
        (
            "inner".to_string(),
            JsonValue::Object(vec![("k".to_string(), JsonValue::Unsigned(2))]),
        ),
    ]);
    let document = to_document(value);
    assert_eq!(document, parsed(r#"{"_id":4,"_labels":["P"],"name":"Ann","inner":{"k":2}}"#));
    assert_eq!(document.as_object().unwrap().len(), 4);
    assert_eq!(to_document(JsonValue::Object(vec![])), parsed("{}"));
}

#[test]
fn of_two_fields_with_one_key_the_later_stays() {
    let value = JsonValue::Object(vec![
        ("a".to_string(), JsonValue::Integer(1)),
        ("b".to_string(), JsonValue::Integer(2)),
        ("a".to_string(), JsonValue::Integer(3)),
    ]);
    assert_eq!(to_document(value), parsed(r#"{"a":3,"b":2}"#));
}
