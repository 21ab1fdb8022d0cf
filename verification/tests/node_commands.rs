use lowmain::actions::{ActionParam, CommandOutput, NextAction};
use lowmain::commands::nodes::{
    collect_nodes, create_plan, create_response, create_result, delete_plan, delete_response,
    delete_result, fetch_deleted, fetch_node, find_output, find_plan, find_response, get_plan,
    get_response, get_result, update_plan, update_response, update_result,
};
use lowmain::commands::{limit_or_default, parse_id, DEFAULT_LIMIT};
use lowmain::connection::{ConnectionConfig, ConnectionSources, Setting};
use lowmain::convert::CanonicalNode;
use lowmain::cypher::{Param, QueryRequest};
use lowmain::error::{AppError, CommandError};
use lowmain::json::JsonValue;
use neo4rs::{BoltInteger, BoltList, BoltMap, BoltNode, BoltString, BoltType, Node, Row};

fn with_password() -> ConnectionSources {
    ConnectionSources {
        uri: Setting { flag: None, env: None },
        user: Setting { flag: None, env: None },
        password: Setting { flag: None, env: Some("pw".to_string()) },
        database: Setting { flag: None, env: None },
    }
}

fn without_password() -> ConnectionSources {
    ConnectionSources {
        uri: Setting { flag: None, env: None },
        user: Setting { flag: None, env: None },
        password: Setting { flag: None, env: None },
        database: Setting { flag: None, env: None },
    }
}

fn default_config() -> ConnectionConfig {
    ConnectionConfig {
        uri: "bolt://localhost:7687".to_string(),
        user: "neo4j".to_string(),
        password: "pw".to_string(),
        database: "neo4j".to_string(),
    }
}

fn invalid(reason: &str) -> AppError {
    AppError::InvalidParams { reason: reason.to_string() }
}

fn person(id: i64) -> Node {
    let properties: BoltMap =
        vec![(BoltString::from("name"), BoltType::from("P"))].into_iter().collect();
    Node::new(BoltNode::new(
        BoltInteger::new(id),
        BoltList::from(vec![BoltType::from("Person")]),
        properties,
    ))
}

fn person_json(id: i64) -> JsonValue {
    JsonValue::Object(vec![
        ("_id".to_string(), JsonValue::Integer(id)),
        ("_labels".to_string(), JsonValue::Array(vec![JsonValue::String("Person".to_string())])),
        ("name".to_string(), JsonValue::String("P".to_string())),
    ])
}

fn canonical_person(id: i64) -> CanonicalNode {
    CanonicalNode {
        id,
        labels: vec!["Person".to_string()],
        properties: vec![("name".to_string(), JsonValue::String("P".to_string()))],
    }
}

fn row_of(column: &str, value: BoltType) -> Row {
    Row::new(BoltList::from(vec![BoltType::from(column)]), BoltList::from(vec![value]))
}

fn node_row(id: i64) -> Row {
    let properties: BoltMap =
        vec![(BoltString::from("name"), BoltType::from("P"))].into_iter().collect();
    row_of(
        "n",
        BoltType::Node(BoltNode::new(
            BoltInteger::new(id),
            BoltList::from(vec![BoltType::from("Person")]),
            properties,
        )),
    )
}

fn literal(command: &str, description: &str) -> NextAction {
    NextAction { command: command.to_string(), description: description.to_string(), params: vec![] }
}

fn required(description: &str) -> ActionParam {
    ActionParam {
        description: Some(description.to_string()),
        required: Some(true),
        enum_values: None,
    }
}

fn relate_from(id: i64) -> NextAction {
    NextAction {
        command: format!("lowmain rel create --from={}", id),
        description: "Create relationship from this node".to_string(),
        params: vec![
            ("--to".to_string(), required("Target node ID")),
            ("--type".to_string(), required("Relationship type")),
        ],
    }
}

#[test]
fn limit_defaults_to_one_hundred() {
    assert_eq!(DEFAULT_LIMIT, 100);
    assert_eq!(limit_or_default(None), 100);
    assert_eq!(limit_or_default(Some("2")), 2);
    assert_eq!(limit_or_default(Some("0")), 0);
    assert_eq!(limit_or_default(Some("-1")), 100);
    assert_eq!(limit_or_default(Some("many")), 100);
    assert_eq!(limit_or_default(Some("")), 100);
}

#[test]
fn ids_are_parsed_or_rejected_with_the_text_given() {
    assert_eq!(parse_id(Some("42"), "missing", "Invalid node ID: "), Ok(42));
    assert_eq!(parse_id(Some("-1"), "missing", "Invalid node ID: "), Ok(-1));
    assert_eq!(parse_id(None, "missing", "Invalid node ID: "), Err(invalid("missing")));
    assert_eq!(
        parse_id(Some("4x"), "missing", "Invalid node ID: "),
        Err(invalid("Invalid node ID: 4x"))
    );
}

#[test]
fn find_plan_validates_then_compiles() {
    let plan = find_plan(Some("Person"), None, Some("2"), &with_password()).unwrap();
    assert_eq!(plan.label, "Person");
    assert_eq!(plan.plan.config, default_config());
    assert_eq!(
        plan.plan.query,
        QueryRequest { text: "MATCH (n:`Person`) RETURN n LIMIT 2".to_string(), params: vec![] }
    );
    let plan = find_plan(Some("Person"), Some("name=Al=ice"), None, &with_password()).unwrap();
    assert_eq!(
        plan.plan.query,
        QueryRequest {
            text: "MATCH (n:`Person`) WHERE n.`name` = $val RETURN n LIMIT 100".to_string(),
            params: vec![("val".to_string(), Param::Text("Al=ice".to_string()))],
        }
    );
}

#[test]
fn find_plan_fails_in_order() {
    assert_eq!(
        find_plan(None, Some("bad"), None, &without_password()),
        Err(invalid("Missing --label. Usage: lowmain node find --label=Person"))
    );
    assert_eq!(
        find_plan(Some("Person"), Some("bad"), None, &without_password()),
        Err(AppError::ConnectionNotConfigured)
    );
    assert_eq!(
        find_plan(Some("Person"), Some("bad"), None, &with_password()),
        Err(invalid("Invalid --where format. Use prop=value"))
    );
}

#[test]
fn find_with_limit_two_returns_two_nodes_and_count_two() {
    let plan = find_plan(Some("Person"), None, Some("2"), &with_password()).unwrap();
    assert!(plan.plan.query.text.ends_with(" LIMIT 2"));
    // a store that holds five such nodes answers a query limited to two with two rows
    let rows = vec![node_row(10), node_row(11)];
    let output = find_response(&plan, &rows);
    assert_eq!(
        output.data,
        JsonValue::Object(vec![
            ("cypher".to_string(), JsonValue::String("MATCH (n:`Person`) RETURN n LIMIT 2".into())),
            ("nodes".to_string(), JsonValue::Array(vec![person_json(10), person_json(11)])),
            ("count".to_string(), JsonValue::Unsigned(2)),
            ("label".to_string(), JsonValue::String("Person".to_string())),
        ])
    );
    assert_eq!(
        output.next_actions,
        vec![
            literal("lowmain node get 10", "Get node 10 details"),
            literal("lowmain node get 11", "Get node 11 details"),
            NextAction {
                command: "lowmain node create --label=Person".to_string(),
                description: "Create a new Person node".to_string(),
                params: vec![("--props".to_string(), required("JSON properties"))],
            },
        ]
    );
}

#[test]
fn find_suggests_at_most_five_reads() {
    for found in [0usize, 1, 4, 5, 6, 12] {
        let nodes: Vec<CanonicalNode> = (0..found).map(|i| canonical_person(i as i64)).collect();
        let output = find_output("Person", "Q", nodes);
        let expected = if found < 5 { found } else { 5 };
        assert_eq!(output.next_actions.len(), expected + 1, "for {} nodes", found);
        for (i, action) in output.next_actions.iter().take(expected).enumerate() {
            assert_eq!(action.command, format!("lowmain node get {}", i));
            assert_eq!(action.description, format!("Get node {} details", i));
            assert!(action.params.is_empty());
        }
        assert_eq!(
            output.next_actions.last().unwrap().command,
            "lowmain node create --label=Person"
        );
        match &output.data {
            JsonValue::Object(fields) => {
                assert_eq!(fields[2], ("count".to_string(), JsonValue::Unsigned(found as u64)))
            }
            _ => panic!("not an object"),
        }
    }
}

#[test]
fn rows_without_a_node_are_passed_over() {
    let rows = vec![node_row(1), row_of("n", BoltType::from(5i64)), row_of("m", BoltType::from(1i64)), node_row(2)];
    let nodes = collect_nodes(&rows);
    assert_eq!(nodes, vec![canonical_person(1), canonical_person(2)]);
    assert_eq!(collect_nodes(&vec![]), vec![]);
}

#[test]
fn get_plan_reads_the_id() {
    let plan = get_plan(Some("42"), &with_password()).unwrap();
    assert_eq!(plan.id, 42);
    assert_eq!(plan.id_text, "42");
    assert_eq!(
        plan.plan.query,
        QueryRequest {
            text: "MATCH (n) WHERE elementId(n) = toString($id) OR id(n) = $id RETURN n"
                .to_string(),
            params: vec![("id".to_string(), Param::Integer(42))],
        }
    );
    assert_eq!(
        get_plan(None, &with_password()),
        Err(invalid("Missing node ID. Usage: lowmain node get <id>"))
    );
    assert_eq!(get_plan(Some("abc"), &without_password()), Err(invalid("Invalid node ID: abc")));
    assert_eq!(get_plan(Some("1"), &without_password()), Err(AppError::ConnectionNotConfigured));
}

#[test]
fn get_of_a_missing_node_echoes_the_id() {
    let plan = get_plan(Some("+0042"), &with_password()).unwrap();
    assert_eq!(plan.id, 42);
    let failure = get_response(&plan, None).unwrap_err();
    assert_eq!(failure, AppError::NodeNotFound { id: "+0042".to_string() });
    assert_eq!(failure.code(), "NODE_NOT_FOUND");
    assert_eq!(failure.message(), "Node not found: +0042");
    let envelope = CommandError::from(failure);
    assert_eq!(envelope.message, "Node not found: +0042");
    assert_eq!(envelope.code, "NODE_NOT_FOUND");
    assert!(!envelope.retryable);
}

#[test]
fn get_answers_with_the_node_and_five_actions() {
    let plan = get_plan(Some("7"), &with_password()).unwrap();
    let row = node_row(7);
    let output = get_response(&plan, Some(&row)).unwrap();
    assert_eq!(
        output,
        CommandOutput {
            data: JsonValue::Object(vec![("node".to_string(), person_json(7))]),
            next_actions: vec![
                NextAction {
                    command: "lowmain node update 7".to_string(),
                    description: "Update this node".to_string(),
                    params: vec![("--set".to_string(), required("JSON properties to set"))],
                },
                literal("lowmain node delete 7", "Delete this node"),
                literal("lowmain rel find --from=7", "Find outgoing relationships"),
                literal("lowmain rel find --to=7", "Find incoming relationships"),
                relate_from(7),
            ],
        }
    );
}

#[test]
fn row_that_holds_no_node_is_a_failed_query() {
    let plan = get_plan(Some("7"), &with_password()).unwrap();
    let row = row_of("n", BoltType::from(5i64));
    let failure = get_response(&plan, Some(&row)).unwrap_err();
    assert_eq!(failure.code(), "QUERY_FAILED");
    let row = row_of("other", BoltType::Node(BoltNode::new(
        BoltInteger::new(1),
        BoltList::from(vec![]),
        BoltMap::new(),
    )));
    assert_eq!(
        get_response(&plan, Some(&row)),
        Err(AppError::QueryFailed { reason: "The property does not exist".to_string() })
    );
    assert_eq!(
        get_result("7", 7, Some(Err("why".to_string()))),
        Err(AppError::QueryFailed { reason: "why".to_string() })
    );
    assert_eq!(fetch_node(None), None);
    assert_eq!(fetch_node(Some(&node_row(3))), Some(Ok(canonical_person(3))));
}

#[test]
fn create_plan_validates_then_compiles() {
    let plan =
        create_plan(Some("Person"), Some(r#"{"name":"Alice","age":30}"#), &with_password()).unwrap();
    assert_eq!(plan.label, "Person");
    assert_eq!(
        plan.plan.query,
        QueryRequest {
            text: "CREATE (n:`Person`) SET n.`age` = $`age`, n.`name` = $`name` RETURN n"
                .to_string(),
            params: vec![
                ("age".to_string(), Param::Integer(30)),
                ("name".to_string(), Param::Text("Alice".to_string())),
            ],
        }
    );
    let plan = create_plan(Some("Person"), Some("{}"), &with_password()).unwrap();
    assert_eq!(plan.plan.query.text, "CREATE (n:`Person`) RETURN n");
    assert_eq!(
        create_plan(None, None, &without_password()),
        Err(invalid(
            "Missing --label. Usage: lowmain node create --label=Person --props='{\"name\":\"Alice\"}'"
        ))
    );
    assert_eq!(
        create_plan(Some("Person"), None, &without_password()),
        Err(invalid("Missing --props. Provide a JSON object of properties"))
    );
    assert_eq!(
        create_plan(Some("Person"), Some("[1]"), &without_password()),
        Err(invalid("Invalid --props JSON: invalid type: sequence, expected a map at line 1 column 0"))
    );
    assert_eq!(
        create_plan(Some("Person"), Some("{}"), &without_password()),
        Err(AppError::ConnectionNotConfigured)
    );
}

#[test]
fn create_answers_with_the_id_that_the_store_gave() {
    let plan = create_plan(Some("Person"), Some("{}"), &with_password()).unwrap();
    let row = node_row(99);
    assert_eq!(
        create_response(&plan, Some(&row)),
        Ok(CommandOutput {
            data: JsonValue::Object(vec![
                ("created".to_string(), JsonValue::Bool(true)),
                ("node".to_string(), person_json(99)),
            ]),
            next_actions: vec![
                literal("lowmain node get 99", "View created node"),
                relate_from(99),
                literal("lowmain node find --label=Person", "Find all Person nodes"),
            ],
        })
    );
    assert_eq!(
        create_response(&plan, None),
        Err(AppError::QueryFailed { reason: "CREATE did not return a node".to_string() })
    );
    assert_eq!(
        create_result("Person", Some(Err("why".to_string()))),
        Err(AppError::QueryFailed { reason: "why".to_string() })
    );
}

#[test]
fn update_plan_validates_then_compiles() {
    let plan = update_plan(Some("7"), Some(r#"{"name":"Bob"}"#), &with_password()).unwrap();
    assert_eq!(plan.id, 7);
    assert_eq!(
        plan.plan.query,
        QueryRequest {
            text: "MATCH (n) WHERE id(n) = $id SET n.`name` = $`name` RETURN n".to_string(),
            params: vec![
                ("id".to_string(), Param::Integer(7)),
                ("name".to_string(), Param::Text("Bob".to_string())),
            ],
        }
    );
    assert_eq!(
        update_plan(None, None, &without_password()),
        Err(invalid("Missing node ID. Usage: lowmain node update <id> --set='{\"name\":\"Bob\"}'"))
    );
    assert_eq!(update_plan(Some("x"), None, &without_password()), Err(invalid("Invalid node ID: x")));
    assert_eq!(
        update_plan(Some("7"), None, &without_password()),
        Err(invalid("Missing --set. Provide a JSON object of properties to update"))
    );
    assert_eq!(
        update_plan(Some("7"), Some("{"), &without_password()),
        Err(invalid("Invalid --set JSON: EOF while parsing an object at line 1 column 1"))
    );
    assert_eq!(
        update_plan(Some("7"), Some("{}"), &without_password()),
        Err(AppError::ConnectionNotConfigured)
    );
}

#[test]
fn update_answers_with_the_node_and_two_actions() {
    let plan = update_plan(Some("7"), Some("{}"), &with_password()).unwrap();
    let row = node_row(7);
    assert_eq!(
        update_response(&plan, Some(&row)),
        Ok(CommandOutput {
            data: JsonValue::Object(vec![
                ("updated".to_string(), JsonValue::Bool(true)),
                ("node".to_string(), person_json(7)),
            ]),
            next_actions: vec![
                literal("lowmain node get 7", "View updated node"),
                literal("lowmain node delete 7", "Delete this node"),
            ],
        })
    );
    assert_eq!(update_response(&plan, None), Err(AppError::NodeNotFound { id: "7".to_string() }));
    assert_eq!(
        update_result("7", 7, Some(Err("why".to_string()))),
        Err(AppError::QueryFailed { reason: "why".to_string() })
    );
}

#[test]
fn delete_plan_validates_then_compiles() {
    let plan = delete_plan(Some("3"), false, &with_password()).unwrap();
    assert_eq!((plan.id, plan.id_text.as_str(), plan.detach), (3, "3", false));
    assert_eq!(
        plan.plan.query.text,
        "MATCH (n) WHERE id(n) = $id DELETE n RETURN count(n) AS deleted"
    );
    let plan = delete_plan(Some("3"), true, &with_password()).unwrap();
    assert!(plan.detach);
    assert_eq!(
        plan.plan.query.text,
        "MATCH (n) WHERE id(n) = $id DETACH DELETE n RETURN count(n) AS deleted"
    );
    assert_eq!(
        delete_plan(None, true, &without_password()),
        Err(invalid("Missing node ID. Usage: lowmain node delete <id>"))
    );
    assert_eq!(delete_plan(Some("x"), true, &without_password()), Err(invalid("Invalid node ID: x")));
    assert_eq!(delete_plan(Some("3"), true, &without_password()), Err(AppError::ConnectionNotConfigured));
}

#[test]
fn delete_succeeds_only_when_something_was_deleted() {
    let plan = delete_plan(Some("3"), true, &with_password()).unwrap();
    let expected = CommandOutput {
        data: JsonValue::Object(vec![
            ("deleted".to_string(), JsonValue::Bool(true)),
            ("id".to_string(), JsonValue::Integer(3)),
            ("detach".to_string(), JsonValue::Bool(true)),
        ]),
        next_actions: vec![
            literal("lowmain schema", "Explore database structure"),
            NextAction {
                command: "lowmain node find".to_string(),
                description: "Find nodes".to_string(),
                params: vec![("--label".to_string(), required("Node label"))],
            },
        ],
    };
    let row = row_of("deleted", BoltType::from(1i64));
    assert_eq!(delete_response(&plan, Some(&row)), Ok(expected));
    let missing = Err(AppError::NodeNotFound { id: "3".to_string() });
    let row = row_of("deleted", BoltType::from(0i64));
    assert_eq!(delete_response(&plan, Some(&row)), missing);
    assert_eq!(delete_response(&plan, None), missing);
    let row = row_of("deleted", BoltType::from("one"));
    assert_eq!(delete_response(&plan, Some(&row)), missing);
    let row = row_of("other", BoltType::from(1i64));
    assert_eq!(delete_response(&plan, Some(&row)), missing);
    assert_eq!(fetch_deleted(None), None);
    assert_eq!(fetch_deleted(Some(&row_of("deleted", BoltType::from(4i64)))), Some(Some(4)));
    assert_eq!(fetch_deleted(Some(&row_of("x", BoltType::from(4i64)))), Some(None));
    assert!(delete_result("3", 3, false, Some(Some(2))).is_ok());
    assert!(delete_result("3", 3, false, Some(Some(-1))).is_ok());
    let _ = person(1);
}
