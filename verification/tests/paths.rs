use lowmain::convert::{
    path_to_json, read_unbounded, unbounded_property_value, unbounded_record_to_json,
    unbounded_rel_to_json, relationship_property_value, UnboundedRecord,
};
use lowmain::driver::ScalarReads;
use lowmain::json::JsonValue;
use neo4rs::{
    BoltFloat, BoltInteger, BoltList, BoltMap, BoltNode, BoltPath, BoltString, BoltType,
    BoltUnboundedRelation, Path, UnboundedRelation,
};

fn link(id: i64, typ: &str, entries: Vec<(&str, BoltType)>) -> BoltUnboundedRelation {
    let properties: BoltMap =
        entries.into_iter().map(|(k, v)| (BoltString::from(k), v)).collect();
    BoltUnboundedRelation::new(BoltInteger::new(id), BoltString::from(typ), properties)
}

fn plain_node(id: i64, label: &str) -> BoltNode {
    BoltNode::new(BoltInteger::new(id), BoltList::from(vec![BoltType::from(label)]), BoltMap::new())
}

fn value_at<'a>(object: &'a JsonValue, key: &str) -> Option<&'a JsonValue> {
    match object {
        JsonValue::Object(fields) => fields.iter().find(|(k, _)| k == key).map(|(_, v)| v),
        _ => None,
    }
}

#[test]
fn path_relationship_has_id_type_and_scalar_properties() {
    let relation = UnboundedRelation::new(link(
        5,
        "KNOWS",
        vec![
            ("since", BoltType::from(2020i64)),
            ("how", BoltType::from("work")),
            ("weight", BoltType::from(0.25f64)),
            ("close", BoltType::from(true)),
            ("tags", BoltType::from(vec!["a"])),
            ("_type", BoltType::from("mine")),
        ],
    ));
    let object = unbounded_rel_to_json(&relation);
    match &object {
        JsonValue::Object(fields) => {
            assert_eq!(fields.len(), 7);
            assert_eq!(fields[0], ("_id".to_string(), JsonValue::Integer(5)));
            assert_eq!(fields[1], ("_type".to_string(), JsonValue::String("KNOWS".to_string())));
        }
        _ => panic!("not an object"),
    }
    assert_eq!(value_at(&object, "since"), Some(&JsonValue::Integer(2020)));
    assert_eq!(value_at(&object, "how"), Some(&JsonValue::String("work".to_string())));
    assert_eq!(value_at(&object, "weight"), Some(&JsonValue::Float(BoltFloat::new(0.25))));
    assert_eq!(value_at(&object, "close"), Some(&JsonValue::Bool(true)));
    assert_eq!(value_at(&object, "tags"), Some(&JsonValue::Null));
    let bare = UnboundedRelation::new(link(1, "T", vec![]));
    assert_eq!(
        read_unbounded(&bare),
        UnboundedRecord { id: 1, rel_type: "T".to_string(), properties: vec![] }
    );
    assert_eq!(
        unbounded_rel_to_json(&bare),
        JsonValue::Object(vec![
            ("_id".to_string(), JsonValue::Integer(1)),
            ("_type".to_string(), JsonValue::String("T".to_string())),
        ])
    );
}

#[test]
fn path_relationship_reads_text_first() {
    let both = || ScalarReads {
        integer: Some(7),
        float: Some(BoltFloat::new(1.0)),
        boolean: Some(false),
        text: Some("seven".to_string()),
    };
    assert_eq!(unbounded_property_value(both()), JsonValue::String("seven".to_string()));
    assert_eq!(relationship_property_value(both()), JsonValue::Integer(7));
    let numbers = ScalarReads {
        integer: Some(7),
        float: Some(BoltFloat::new(1.0)),
        boolean: Some(false),
        text: None,
    };
    assert_eq!(unbounded_property_value(numbers), JsonValue::Integer(7));
    let float_and_bool =
        ScalarReads { integer: None, float: Some(BoltFloat::new(1.0)), boolean: Some(false), text: None };
    assert_eq!(unbounded_property_value(float_and_bool), JsonValue::Float(BoltFloat::new(1.0)));
    let only_bool = ScalarReads { integer: None, float: None, boolean: Some(false), text: None };
    assert_eq!(unbounded_property_value(only_bool), JsonValue::Bool(false));
    let nothing = ScalarReads { integer: None, float: None, boolean: None, text: None };
    assert_eq!(unbounded_property_value(nothing), JsonValue::Null);
    let record = UnboundedRecord {
        id: 3,
        rel_type: "T".to_string(),
        properties: vec![
            ("_id".to_string(), ScalarReads { integer: Some(9), float: None, boolean: None, text: None }),
            ("n".to_string(), ScalarReads { integer: Some(9), float: None, boolean: None, text: None }),
        ],
    };
    assert_eq!(
        unbounded_record_to_json(record),
        JsonValue::Object(vec![
            ("_id".to_string(), JsonValue::Integer(3)),
            ("_type".to_string(), JsonValue::String("T".to_string())),
            ("n".to_string(), JsonValue::Integer(9)),
        ])
    );
}

#[test]
fn path_lists_its_nodes_and_relationships() {
    let path = Path::new(BoltPath {
        nodes: BoltList::from(vec![
            BoltType::Node(plain_node(1, "A")),
            BoltType::Node(plain_node(2, "B")),
        ]),
        rels: BoltList::from(vec![BoltType::UnboundedRelation(link(10, "TO", vec![]))]),
        indices: BoltList::from(vec![BoltType::from(1i64), BoltType::from(1i64)]),
    });
    let node = |id: i64, label: &str| {
        JsonValue::Object(vec![
            ("_id".to_string(), JsonValue::Integer(id)),
            ("_labels".to_string(), JsonValue::Array(vec![JsonValue::String(label.to_string())])),
        ])
    };
    assert_eq!(
        path_to_json(&path),
        JsonValue::Object(vec![
            ("_type".to_string(), JsonValue::String("path".to_string())),
            ("nodes".to_string(), JsonValue::Array(vec![node(1, "A"), node(2, "B")])),
            (
                "relationships".to_string(),
                JsonValue::Array(vec![JsonValue::Object(vec![
                    ("_id".to_string(), JsonValue::Integer(10)),
                    ("_type".to_string(), JsonValue::String("TO".to_string())),
                ])])
            ),
        ])
    );
    let empty = Path::new(BoltPath {
        nodes: BoltList::from(vec![]),
        rels: BoltList::from(vec![]),
        indices: BoltList::from(vec![]),
    });
    assert_eq!(
        path_to_json(&empty),
        JsonValue::Object(vec![
            ("_type".to_string(), JsonValue::String("path".to_string())),
            ("nodes".to_string(), JsonValue::Array(vec![])),
            ("relationships".to_string(), JsonValue::Array(vec![])),
        ])
    );
}
