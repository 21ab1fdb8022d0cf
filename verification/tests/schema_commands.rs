use lowmain::actions::{ActionParam, CommandOutput, NextAction};
use lowmain::commands::ping::{ping_output, ping_plan, ping_response};
use lowmain::commands::schema::{
    collect_rows, collect_texts, constraints_query, constraints_response,
    count_output, count_plan, count_response, fetch_count, fetch_labels, fetch_rel_types,
    indexes_query, indexes_response, labels_output, labels_query, labels_response, list_plan,
    node_count_query, overview_output, overview_plan, overview_response, relationship_count_query,
    types_query, types_response,
};
use lowmain::connection::{ConnectionSources, Setting};
use lowmain::cypher::QueryRequest;
use lowmain::error::AppError;
use lowmain::json::JsonValue;
use lowmain::text::copy_texts;
use neo4rs::{BoltList, BoltType, Row};

fn origin(password: Option<&str>) -> ConnectionSources {
    ConnectionSources {
        uri: Setting { flag: Some("bolt://db:7687".to_string()), env: None },
        user: Setting { flag: None, env: None },
        password: Setting { flag: None, env: password.map(String::from) },
        database: Setting { flag: None, env: Some("movies".to_string()) },
    }
}

fn single(column: &str, value: BoltType) -> Row {
    Row::new(BoltList::from(vec![BoltType::from(column)]), BoltList::from(vec![value]))
}

fn fixed(text: &str) -> QueryRequest {
    QueryRequest { text: text.to_string(), params: vec![] }
}

fn bare(command: &str, description: &str) -> NextAction {
    NextAction { command: command.to_string(), description: description.to_string(), params: vec![] }
}

fn texts(items: Vec<&str>) -> JsonValue {
    JsonValue::Array(items.into_iter().map(|s| JsonValue::String(s.to_string())).collect())
}

fn parsed(text: &str) -> JsonValue {
    JsonValue::Document(serde_json::from_str::<serde_json::Value>(text).unwrap())
}

#[test]
fn schema_queries_are_fixed() {
    assert_eq!(labels_query(), fixed("CALL db.labels() YIELD label RETURN label ORDER BY label"));
    assert_eq!(
        types_query(),
        fixed("CALL db.relationshipTypes() YIELD relationshipType RETURN relationshipType ORDER BY relationshipType")
    );
    assert_eq!(
        indexes_query(),
        fixed("SHOW INDEXES YIELD name, type, labelsOrTypes, properties, state")
    );
    assert_eq!(
        constraints_query(),
        fixed("SHOW CONSTRAINTS YIELD name, type, labelsOrTypes, properties")
    );
    assert_eq!(node_count_query(), fixed("MATCH (n) RETURN count(n) AS node_count"));
    assert_eq!(relationship_count_query(), fixed("MATCH ()-[r]->() RETURN count(r) AS rel_count"));
    let plan = overview_plan(&origin(Some("pw"))).unwrap();
    assert_eq!(plan.config.uri, "bolt://db:7687");
    assert_eq!(plan.config.database, "movies");
    assert_eq!(plan.labels, labels_query());
    assert_eq!(plan.types, types_query());
    assert_eq!(plan.indexes, indexes_query());
    assert_eq!(plan.constraints, constraints_query());
    assert_eq!(overview_plan(&origin(None)), Err(AppError::ConnectionNotConfigured));
    let plan = count_plan(&origin(Some("pw"))).unwrap();
    assert_eq!(plan.nodes, node_count_query());
    assert_eq!(plan.relationships, relationship_count_query());
    assert_eq!(count_plan(&origin(None)), Err(AppError::ConnectionNotConfigured));
    let plan = list_plan(&origin(Some("pw")), labels_query()).unwrap();
    assert_eq!(plan.query, labels_query());
    assert_eq!(plan.config.password, "pw");
    assert_eq!(list_plan(&origin(None), labels_query()), Err(AppError::ConnectionNotConfigured));
}

#[test]
fn labels_are_listed_with_one_suggestion_each() {
    let rows = vec![
        single("label", BoltType::from("Movie")),
        single("label", BoltType::from(1i64)),
        single("label", BoltType::from("Person")),
    ];
    assert_eq!(fetch_labels(&rows), vec!["Movie".to_string(), "Person".to_string()]);
    assert_eq!(
        labels_response(&rows),
        CommandOutput {
            data: JsonValue::Object(vec![("labels".to_string(), texts(vec!["Movie", "Person"]))]),
            next_actions: vec![
                bare("lowmain node find --label=Movie", "Find Movie nodes"),
                bare("lowmain node find --label=Person", "Find Person nodes"),
            ],
        }
    );
    // every label is listed, and the first five are suggested
    let many: Vec<String> = (0..8).map(|i| format!("L{}", i)).collect();
    let output = labels_output(many);
    assert_eq!(output.next_actions.len(), 5);
    assert_eq!(output.next_actions[4], bare("lowmain node find --label=L4", "Find L4 nodes"));
    match &output.data {
        JsonValue::Object(fields) => match &fields[0].1 {
            JsonValue::Array(items) => assert_eq!(items.len(), 8),
            _ => panic!("not an array"),
        },
        _ => panic!("not an object"),
    }
    let many: Vec<String> = (0..8).map(|i| format!("T{}", i)).collect();
    assert_eq!(lowmain::commands::schema::types_output(many).next_actions.len(), 5);
    let many: Vec<String> = (0..8).map(|i| format!("L{}", i)).collect();
    let overview = overview_output(many, vec![], vec![], vec![]);
    assert_eq!(overview.next_actions.len(), 7);
    assert_eq!(
        overview.next_actions[5].params[0].1.enum_values.as_ref().map(|v| v.len()),
        Some(8)
    );
}

#[test]
fn types_are_listed_with_one_suggestion_each() {
    let rows = vec![single("relationshipType", BoltType::from("KNOWS"))];
    assert_eq!(fetch_rel_types(&rows), vec!["KNOWS".to_string()]);
    assert_eq!(collect_texts(&rows, "label"), Vec::<String>::new());
    assert_eq!(
        types_response(&rows),
        CommandOutput {
            data: JsonValue::Object(vec![("relationship_types".to_string(), texts(vec!["KNOWS"]))]),
            next_actions: vec![bare("lowmain rel find --type=KNOWS", "Find KNOWS relationships")],
        }
    );
}

#[test]
fn indexes_and_constraints_are_listed_as_documents() {
    let rows = vec![single("name", BoltType::from("idx"))];
    assert_eq!(collect_rows(&rows), vec![parsed(r#"{"name":"idx"}"#)]);
    assert_eq!(
        indexes_response(&rows),
        CommandOutput {
            data: JsonValue::Object(vec![(
                "indexes".to_string(),
                JsonValue::Array(vec![parsed(r#"{"name":"idx"}"#)])
            )]),
            next_actions: vec![bare("lowmain schema constraints", "View constraints")],
        }
    );
    assert_eq!(
        constraints_response(&rows),
        CommandOutput {
            data: JsonValue::Object(vec![(
                "constraints".to_string(),
                JsonValue::Array(vec![parsed(r#"{"name":"idx"}"#)])
            )]),
            next_actions: vec![bare("lowmain schema indexes", "View indexes")],
        }
    );
}

#[test]
fn counts_default_to_zero() {
    let nodes = single("node_count", BoltType::from(12i64));
    let relationships = single("rel_count", BoltType::from(34i64));
    let expected = |n: i64, r: i64| CommandOutput {
        data: JsonValue::Object(vec![
            ("node_count".to_string(), JsonValue::Integer(n)),
            ("relationship_count".to_string(), JsonValue::Integer(r)),
        ]),
        next_actions: vec![
            bare("lowmain schema labels", "View labels"),
            bare("lowmain schema types", "View relationship types"),
        ],
    };
    assert_eq!(count_response(Some(&nodes), Some(&relationships)), expected(12, 34));
    assert_eq!(count_response(None, Some(&relationships)), expected(0, 34));
    assert_eq!(count_response(Some(&relationships), None), expected(0, 0));
    assert_eq!(count_output(Some(None), Some(Some(5))), expected(0, 5));
    assert_eq!(fetch_count(Some(&nodes), "node_count"), Some(Some(12)));
    assert_eq!(fetch_count(None, "node_count"), None);
}

#[test]
fn overview_lists_everything_and_offers_the_labels() {
    let labels = vec![single("label", BoltType::from("Movie"))];
    let types = vec![single("relationshipType", BoltType::from("KNOWS"))];
    let indexes = vec![single("name", BoltType::from("i"))];
    let constraints: Vec<Row> = vec![];
    let output = overview_response(&labels, &types, &indexes, &constraints);
    assert_eq!(
        output,
        CommandOutput {
            data: JsonValue::Object(vec![
                ("labels".to_string(), texts(vec!["Movie"])),
                ("relationship_types".to_string(), texts(vec!["KNOWS"])),
                ("indexes".to_string(), JsonValue::Array(vec![parsed(r#"{"name":"i"}"#)])),
                ("constraints".to_string(), JsonValue::Array(vec![])),
            ]),
            next_actions: vec![
                bare("lowmain node find --label=Movie", "Find Movie nodes"),
                NextAction {
                    command: "lowmain node create".to_string(),
                    description: "Create a new node".to_string(),
                    params: vec![
                        (
                            "--label".to_string(),
                            ActionParam {
                                description: Some("Node label".to_string()),
                                required: Some(true),
                                enum_values: Some(vec!["Movie".to_string()]),
                            }
                        ),
                        (
                            "--props".to_string(),
                            ActionParam {
                                description: Some("JSON properties".to_string()),
                                required: Some(true),
                                enum_values: None,
                            }
                        ),
                    ],
                },
                NextAction {
                    command: "lowmain query".to_string(),
                    description: "Execute a Cypher query".to_string(),
                    params: vec![(
                        "cypher".to_string(),
                        ActionParam { description: None, required: Some(true), enum_values: None }
                    )],
                },
            ],
        }
    );
    assert_eq!(overview_output(vec![], vec![], vec![], vec![]).next_actions.len(), 2);
    assert_eq!(copy_texts(&vec!["a".to_string(), "b".to_string()]), vec!["a", "b"]);
}

#[test]
fn ping_shows_where_it_connected() {
    let plan = ping_plan(&origin(Some("pw"))).unwrap();
    assert_eq!(plan.plan.query, fixed("RETURN 1 AS ok"));
    assert_eq!((plan.uri.as_str(), plan.database.as_str()), ("bolt://db:7687", "movies"));
    let expected = CommandOutput {
        data: JsonValue::Object(vec![
            ("connected".to_string(), JsonValue::Bool(true)),
            ("uri".to_string(), JsonValue::String("bolt://db:7687".to_string())),
            ("db".to_string(), JsonValue::String("movies".to_string())),
        ]),
        next_actions: vec![
            bare("lowmain schema", "Explore database structure"),
            NextAction {
                command: "lowmain query".to_string(),
                description: "Execute a Cypher query".to_string(),
                params: vec![(
                    "cypher".to_string(),
                    ActionParam {
                        description: Some("Cypher query to run".to_string()),
                        required: Some(true),
                        enum_values: None,
                    }
                )],
            },
            NextAction {
                command: "lowmain node find".to_string(),
                description: "Find nodes by label".to_string(),
                params: vec![(
                    "--label".to_string(),
                    ActionParam {
                        description: Some("Node label to search".to_string()),
                        required: Some(true),
                        enum_values: None,
                    }
                )],
            },
        ],
    };
    assert_eq!(ping_response(&plan), expected);
    assert_eq!(ping_output("bolt://db:7687", "movies"), expected);
    assert_eq!(ping_plan(&origin(None)), Err(AppError::ConnectionNotConfigured));
}
