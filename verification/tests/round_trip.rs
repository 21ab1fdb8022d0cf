use lowmain::commands::read_properties;
use lowmain::convert::{node_to_json, relation_to_json};
use lowmain::cypher::{compile_create_node, Param};
use lowmain::json::JsonValue;
use neo4rs::{
    BoltFloat, BoltInteger, BoltList, BoltMap, BoltNode, BoltRelation, BoltString, BoltType, Node,
    Relation,
};

/// What a store does with a bound parameter: it keeps the value under the
/// parameter's type.
fn stored(param: &Param) -> BoltType {
    match param {
        Param::Text(s) => BoltType::from(s.as_str()),
        Param::Integer(i) => BoltType::from(*i),
        Param::Float(n) => BoltType::from(n.as_f64().unwrap()),
        Param::Boolean(b) => BoltType::from(*b),
    }
}

fn lookup<'a>(object: &'a JsonValue, key: &str) -> &'a JsonValue {
    match object {
        JsonValue::Object(fields) => {
            fields.iter().find(|(k, _)| k == key).map(|(_, v)| v).unwrap()
        }
        _ => panic!("not an object"),
    }
}

#[test]
fn written_scalars_read_back_with_their_kind() {
    let text = r#"{"name":"Alice","age":30,"score":1.5,"ok":true,"tags":["a","b"],"none":null}"#;
    let entries = read_properties(text, "Invalid --props JSON: ").unwrap();
    let query = compile_create_node("Person", entries);
    let keys: Vec<&str> = query.params.iter().map(|(k, _)| k.as_str()).collect();
    assert_eq!(keys, vec!["age", "name", "none", "ok", "score", "tags"]);

    let properties: BoltMap =
        query.params.iter().map(|(k, p)| (BoltString::from(k.as_str()), stored(p))).collect();
    let node = Node::new(BoltNode::new(
        BoltInteger::new(1),
        BoltList::from(vec![BoltType::from("Person")]),
        properties.clone(),
    ));
    let object = node_to_json(&node);
    assert_eq!(lookup(&object, "name"), &JsonValue::String("Alice".to_string()));
    assert_eq!(lookup(&object, "age"), &JsonValue::Integer(30));
    assert_eq!(lookup(&object, "score"), &JsonValue::Float(BoltFloat::new(1.5)));
    assert_eq!(lookup(&object, "ok"), &JsonValue::Bool(true));
    // an array and a null were written as the text of their rendering
    assert_eq!(lookup(&object, "tags"), &JsonValue::String(r#"["a","b"]"#.to_string()));
    assert_eq!(lookup(&object, "none"), &JsonValue::String("null".to_string()));

    let relation = Relation::new(BoltRelation {
        id: BoltInteger::new(1),
        start_node_id: BoltInteger::new(2),
        end_node_id: BoltInteger::new(3),
        typ: BoltString::from("T"),
        properties,
    });
    let object = relation_to_json(&relation);
    assert_eq!(lookup(&object, "name"), &JsonValue::String("Alice".to_string()));
    assert_eq!(lookup(&object, "age"), &JsonValue::Integer(30));
    assert_eq!(lookup(&object, "score"), &JsonValue::Float(BoltFloat::new(1.5)));
    assert_eq!(lookup(&object, "ok"), &JsonValue::Bool(true));
}
