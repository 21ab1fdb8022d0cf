use lowmain::commands::read_properties;
use lowmain::cypher::{
    compile_create_node, compile_create_relationship, compile_delete_node,
    compile_delete_relationship, compile_find_nodes, compile_find_relationships, compile_get_node,
    compile_raw_query, compile_update_node, fixed_query, infer_param, Param, QueryRequest,
};
use lowmain::error::{AppError, ErrorKind};
use lowmain::json::JsonEntry;

fn props(text: &str) -> Vec<(String, JsonEntry)> {
    read_properties(text, "Invalid --props JSON: ").unwrap()
}

fn number(text: &str) -> serde_json::Number {
    serde_json::from_str::<serde_json::Number>(text).unwrap()
}

fn integer(text: &str, value: i64) -> JsonEntry {
    JsonEntry::Number { integer: Some(value), number: number(text) }
}

fn float(text: &str) -> JsonEntry {
    JsonEntry::Number { integer: None, number: number(text) }
}

#[test]
fn property_objects_are_read_by_value_kind() {
    assert_eq!(
        props(r#"{"name":"Alice","age":30,"score":1.5,"ok":true,"none":null,"tags":["a","b"],"at":{"x":1}}"#),
        vec![
            ("age".to_string(), integer("30", 30)),
            ("at".to_string(), JsonEntry::Object(r#"{"x":1}"#.to_string())),
            ("name".to_string(), JsonEntry::String("Alice".to_string())),
            ("none".to_string(), JsonEntry::Null("null".to_string())),
            ("ok".to_string(), JsonEntry::Bool(true)),
            ("score".to_string(), float("1.5")),
            ("tags".to_string(), JsonEntry::Array(r#"["a","b"]"#.to_string())),
        ]
    );
    assert_eq!(props("{}"), vec![]);
    // an integer beyond 64 signed bits is no integer here
    assert_eq!(
        props(r#"{"big":9223372036854775808,"min":-9223372036854775808,"one":1.0}"#),
        vec![
            ("big".to_string(), float("9223372036854775808")),
            ("min".to_string(), integer("-9223372036854775808", i64::MIN)),
            ("one".to_string(), float("1.0")),
        ]
    );
    // the last of two equal keys wins
    assert_eq!(props(r#"{"a":1,"a":2}"#), vec![("a".to_string(), integer("2", 2))]);
}

#[test]
fn text_that_is_no_object_is_an_input_failure() {
    for text in ["", "[1,2]", "\"x\"", "{", "{\"a\":}", "null", "{'a':1}"] {
        let failure = read_properties(text, "Invalid --props JSON: ").unwrap_err();
        assert_eq!(failure.kind(), ErrorKind::InvalidParams, "for {:?}", text);
        let expected = serde_json::from_str::<serde_json::Map<String, serde_json::Value>>(text)
            .unwrap_err()
            .to_string();
        assert_eq!(
            failure,
            AppError::InvalidParams { reason: format!("Invalid --props JSON: {}", expected) }
        );
    }
}

#[test]
fn parameter_types_are_inferred_from_value_kinds() {
    assert_eq!(infer_param(JsonEntry::String("x".into())), Param::Text("x".into()));
    assert_eq!(infer_param(integer("-3", -3)), Param::Integer(-3));
    assert_eq!(infer_param(float("2.5")), Param::Float(number("2.5")));
    assert_eq!(infer_param(float("18446744073709551615")), Param::Float(number("18446744073709551615")));
    assert_eq!(infer_param(JsonEntry::Bool(false)), Param::Boolean(false));
    assert_eq!(infer_param(JsonEntry::Null("null".into())), Param::Text("null".into()));
    assert_eq!(infer_param(JsonEntry::Array("[1]".into())), Param::Text("[1]".into()));
    assert_eq!(infer_param(JsonEntry::Object("{}".into())), Param::Text("{}".into()));
}

#[test]
fn identifiers_are_escaped_so_that_they_stay_identifiers() {
    assert_eq!(
        compile_create_node("a`b", vec![]).text,
        "CREATE (n:`a``b`) RETURN n"
    );
    assert_eq!(
        compile_create_node("L", props(r#"{"k`) DETACH DELETE n //":1}"#)).text,
        "CREATE (n:`L`) SET n.`k``) DETACH DELETE n //` = $`k``) DETACH DELETE n //` RETURN n"
    );
    assert_eq!(
        compile_find_nodes("`", Some(("``".to_string(), "`".to_string())), 1),
        QueryRequest {
            text: "MATCH (n:````) WHERE n.`````` = $val RETURN n LIMIT 1".to_string(),
            params: vec![("val".to_string(), Param::Text("`".to_string()))],
        }
    );
    assert_eq!(
        compile_find_relationships(None, None, Some("A`B"), 1).text,
        "MATCH (a)-[r:`A``B`]->(b) RETURN r, id(a) AS from_id, id(b) AS to_id LIMIT 1"
    );
    assert_eq!(
        compile_create_relationship(1, 2, "T`", None).text,
        "MATCH (a), (b) WHERE id(a) = $from_id AND id(b) = $to_id CREATE (a)-[r:`T```]->(b) RETURN r"
    );
    // the parameter is bound under the key as it was given
    assert_eq!(
        compile_create_node("L", props(r#"{"a`b":"v"}"#)).params,
        vec![("a`b".to_string(), Param::Text("v".to_string()))]
    );
}

#[test]
fn find_nodes_embeds_identifiers_and_binds_the_value() {
    assert_eq!(
        compile_find_nodes("Person", None, 100),
        QueryRequest { text: "MATCH (n:`Person`) RETURN n LIMIT 100".to_string(), params: vec![] }
    );
    assert_eq!(
        compile_find_nodes("Person", Some(("name".to_string(), "Alice".to_string())), 2),
        QueryRequest {
            text: "MATCH (n:`Person`) WHERE n.`name` = $val RETURN n LIMIT 2".to_string(),
            params: vec![("val".to_string(), Param::Text("Alice".to_string()))],
        }
    );
    // a value never reaches the text
    let hostile = "x' OR 1=1 //".to_string();
    let q = compile_find_nodes("L", Some(("p".to_string(), hostile.clone())), 0);
    assert_eq!(q.text, "MATCH (n:`L`) WHERE n.`p` = $val RETURN n LIMIT 0");
    assert_eq!(q.params, vec![("val".to_string(), Param::Text(hostile))]);
}

#[test]
fn get_node_binds_the_id() {
    assert_eq!(
        compile_get_node(-5),
        QueryRequest {
            text: "MATCH (n) WHERE elementId(n) = toString($id) OR id(n) = $id RETURN n"
                .to_string(),
            params: vec![("id".to_string(), Param::Integer(-5))],
        }
    );
}

#[test]
fn create_node_enumerates_every_key() {
    assert_eq!(
        compile_create_node("Person", vec![]),
        QueryRequest { text: "CREATE (n:`Person`) RETURN n".to_string(), params: vec![] }
    );
    assert_eq!(
        compile_create_node("Person", props(r#"{"name":"Alice"}"#)),
        QueryRequest {
            text: "CREATE (n:`Person`) SET n.`name` = $`name` RETURN n".to_string(),
            params: vec![("name".to_string(), Param::Text("Alice".to_string()))],
        }
    );
    assert_eq!(
        compile_create_node(
            "Person",
            props(r#"{"name":"Alice","age":30,"score":1.5,"ok":true,"tags":["a"]}"#)
        ),
        QueryRequest {
            text: "CREATE (n:`Person`) SET n.`age` = $`age`, n.`name` = $`name`, n.`ok` = $`ok`, n.`score` = $`score`, n.`tags` = $`tags` RETURN n".to_string(),
            params: vec![
                ("age".to_string(), Param::Integer(30)),
                ("name".to_string(), Param::Text("Alice".to_string())),
                ("ok".to_string(), Param::Boolean(true)),
                ("score".to_string(), Param::Float(number("1.5"))),
                ("tags".to_string(), Param::Text(r#"["a"]"#.to_string())),
            ],
        }
    );
}

#[test]
fn update_node_has_a_set_clause_unless_nothing_is_set() {
    assert_eq!(
        compile_update_node(7, props(r#"{"name":"Bob","age":41}"#)),
        QueryRequest {
            text: "MATCH (n) WHERE id(n) = $id SET n.`age` = $`age`, n.`name` = $`name` RETURN n"
                .to_string(),
            params: vec![
                ("id".to_string(), Param::Integer(7)),
                ("age".to_string(), Param::Integer(41)),
                ("name".to_string(), Param::Text("Bob".to_string())),
            ],
        }
    );
    assert_eq!(
        compile_update_node(7, vec![]),
        QueryRequest {
            text: "MATCH (n) WHERE id(n) = $id RETURN n".to_string(),
            params: vec![("id".to_string(), Param::Integer(7))],
        }
    );
}

#[test]
fn delete_node_detaches_on_request() {
    assert_eq!(
        compile_delete_node(3, false),
        QueryRequest {
            text: "MATCH (n) WHERE id(n) = $id DELETE n RETURN count(n) AS deleted".to_string(),
            params: vec![("id".to_string(), Param::Integer(3))],
        }
    );
    assert_eq!(
        compile_delete_node(3, true),
        QueryRequest {
            text: "MATCH (n) WHERE id(n) = $id DETACH DELETE n RETURN count(n) AS deleted"
                .to_string(),
            params: vec![("id".to_string(), Param::Integer(3))],
        }
    );
}

#[test]
fn find_relationships_filters_by_the_ends_that_are_given() {
    assert_eq!(
        compile_find_relationships(None, None, None, 100),
        QueryRequest {
            text: "MATCH (a)-[r]->(b) RETURN r, id(a) AS from_id, id(b) AS to_id LIMIT 100"
                .to_string(),
            params: vec![],
        }
    );
    assert_eq!(
        compile_find_relationships(Some(1), None, Some("KNOWS"), 10),
        QueryRequest {
            text: "MATCH (a)-[r:`KNOWS`]->(b) WHERE id(a) = $from_id RETURN r, id(a) AS from_id, id(b) AS to_id LIMIT 10".to_string(),
            params: vec![("from_id".to_string(), Param::Integer(1))],
        }
    );
    assert_eq!(
        compile_find_relationships(None, Some(2), None, 10),
        QueryRequest {
            text: "MATCH (a)-[r]->(b) WHERE id(b) = $to_id RETURN r, id(a) AS from_id, id(b) AS to_id LIMIT 10".to_string(),
            params: vec![("to_id".to_string(), Param::Integer(2))],
        }
    );
    assert_eq!(
        compile_find_relationships(Some(1), Some(2), Some("KNOWS"), 5),
        QueryRequest {
            text: "MATCH (a)-[r:`KNOWS`]->(b) WHERE id(a) = $from_id AND id(b) = $to_id RETURN r, id(a) AS from_id, id(b) AS to_id LIMIT 5".to_string(),
            params: vec![
                ("from_id".to_string(), Param::Integer(1)),
                ("to_id".to_string(), Param::Integer(2)),
            ],
        }
    );
}

#[test]
fn create_relationship_sets_properties_when_given() {
    assert_eq!(
        compile_create_relationship(1, 2, "KNOWS", None),
        QueryRequest {
            text: "MATCH (a), (b) WHERE id(a) = $from_id AND id(b) = $to_id CREATE (a)-[r:`KNOWS`]->(b) RETURN r".to_string(),
            params: vec![
                ("from_id".to_string(), Param::Integer(1)),
                ("to_id".to_string(), Param::Integer(2)),
            ],
        }
    );
    assert_eq!(
        compile_create_relationship(1, 2, "KNOWS", Some(props(r#"{"since":2020}"#))),
        QueryRequest {
            text: "MATCH (a), (b) WHERE id(a) = $from_id AND id(b) = $to_id CREATE (a)-[r:`KNOWS`]->(b) SET r.`since` = $`since` RETURN r".to_string(),
            params: vec![
                ("from_id".to_string(), Param::Integer(1)),
                ("to_id".to_string(), Param::Integer(2)),
                ("since".to_string(), Param::Integer(2020)),
            ],
        }
    );
    assert_eq!(
        compile_create_relationship(1, 2, "KNOWS", Some(vec![])),
        compile_create_relationship(1, 2, "KNOWS", None)
    );
}

#[test]
fn delete_relationship_binds_the_id() {
    assert_eq!(
        compile_delete_relationship(9),
        QueryRequest {
            text: "MATCH ()-[r]->() WHERE id(r) = $id DELETE r RETURN count(r) AS deleted"
                .to_string(),
            params: vec![("id".to_string(), Param::Integer(9))],
        }
    );
}

#[test]
fn raw_query_keeps_the_text_and_binds_the_parameters() {
    assert_eq!(
        compile_raw_query("MATCH (n) RETURN n", None),
        QueryRequest { text: "MATCH (n) RETURN n".to_string(), params: vec![] }
    );
    assert_eq!(
        compile_raw_query(
            "MATCH (n) WHERE n.age > $min RETURN n",
            Some(props(r#"{"min":18,"who":null}"#))
        ),
        QueryRequest {
            text: "MATCH (n) WHERE n.age > $min RETURN n".to_string(),
            params: vec![
                ("min".to_string(), Param::Integer(18)),
                ("who".to_string(), Param::Text("null".to_string())),
            ],
        }
    );
    assert_eq!(
        fixed_query("RETURN 1 AS ok"),
        QueryRequest { text: "RETURN 1 AS ok".to_string(), params: vec![] }
    );
}
