use lowmain::actions::{ActionParam, CommandOutput, NextAction};
use lowmain::commands::query::{
    collect_documents, keep_collecting, query_plan, query_response, read_output, read_response,
    store_call, write_output, StoreCall,
};
use lowmain::connection::{ConnectionSources, Setting};
use lowmain::cypher::{Param, QueryRequest};
use lowmain::error::AppError;
use lowmain::json::JsonValue;
use neo4rs::{BoltList, BoltType, Row};

fn given(password: Option<&str>) -> ConnectionSources {
    ConnectionSources {
        uri: Setting { flag: None, env: None },
        user: Setting { flag: None, env: None },
        password: Setting { flag: None, env: password.map(String::from) },
        database: Setting { flag: None, env: None },
    }
}

fn numbered(n: i64) -> Row {
    Row::new(BoltList::from(vec![BoltType::from("x")]), BoltList::from(vec![BoltType::from(n)]))
}

fn document(text: &str) -> JsonValue {
    JsonValue::Document(serde_json::from_str::<serde_json::Value>(text).unwrap())
}

fn another_query() -> NextAction {
    NextAction {
        command: "lowmain query".to_string(),
        description: "Run another query".to_string(),
        params: vec![(
            "cypher".to_string(),
            ActionParam { description: None, required: Some(true), enum_values: None },
        )],
    }
}

fn has_field(value: &JsonValue, key: &str) -> bool {
    match value {
        JsonValue::Object(fields) => fields.iter().any(|(k, _)| k == key),
        _ => false,
    }
}

#[test]
fn query_plan_validates_then_compiles() {
    let plan = query_plan(
        Some("MATCH (n) WHERE n.age > $min RETURN n"),
        Some(r#"{"min":18}"#),
        Some("5"),
        false,
        &given(Some("pw")),
    )
    .unwrap();
    assert_eq!(plan.limit, 5);
    assert!(!plan.write);
    assert_eq!(
        plan.plan.query,
        QueryRequest {
            text: "MATCH (n) WHERE n.age > $min RETURN n".to_string(),
            params: vec![("min".to_string(), Param::Integer(18))],
        }
    );
    let plan = query_plan(Some("CREATE (n)"), None, None, true, &given(Some("pw"))).unwrap();
    assert_eq!(plan.limit, 100);
    assert!(plan.write);
    assert_eq!(plan.plan.query, QueryRequest { text: "CREATE (n)".to_string(), params: vec![] });

    assert_eq!(
        query_plan(None, Some("["), None, false, &given(None)),
        Err(AppError::InvalidParams {
            reason: "Missing Cypher query. Usage: lowmain query \"MATCH (n) RETURN n\"".to_string()
        })
    );
    assert_eq!(
        query_plan(Some("RETURN 1"), Some("["), None, false, &given(None)),
        Err(AppError::ConnectionNotConfigured)
    );
    assert_eq!(
        query_plan(Some("RETURN 1"), Some("["), None, false, &given(Some("pw"))),
        Err(AppError::InvalidParams {
            reason: "Invalid --params JSON: invalid type: sequence, expected a map at line 1 column 0".to_string()
        })
    );
}

#[test]
fn read_with_limit_one_of_three_rows_is_truncated() {
    let plan = query_plan(Some("MATCH (n) RETURN n.x AS x"), None, Some("1"), false, &given(Some("pw")))
        .unwrap();
    let rows = vec![numbered(1), numbered(2), numbered(3)];
    let output = read_response(&plan, &rows);
    assert_eq!(
        output,
        CommandOutput {
            data: JsonValue::Object(vec![
                ("cypher".to_string(), JsonValue::String("MATCH (n) RETURN n.x AS x".to_string())),
                ("rows".to_string(), JsonValue::Array(vec![document(r#"{"x":1}"#)])),
                ("count".to_string(), JsonValue::Unsigned(1)),
                ("truncated".to_string(), JsonValue::Bool(true)),
                ("limit".to_string(), JsonValue::Unsigned(1)),
            ]),
            next_actions: vec![
                another_query(),
                NextAction {
                    command: "lowmain schema".to_string(),
                    description: "Explore database structure".to_string(),
                    params: vec![],
                },
            ],
        }
    );
    // a caller that streams the rows keeps one and stops
    assert!(keep_collecting(0, 1));
    assert!(!keep_collecting(1, 1));
}

#[test]
fn write_answer_has_no_truncated_field() {
    let plan =
        query_plan(Some("CREATE (n:X)"), None, Some("1"), true, &given(Some("pw"))).unwrap();
    let output = write_output(plan.plan.query.text.as_str());
    assert_eq!(
        output,
        CommandOutput {
            data: JsonValue::Object(vec![
                ("executed".to_string(), JsonValue::Bool(true)),
                ("cypher".to_string(), JsonValue::String("CREATE (n:X)".to_string())),
                ("mode".to_string(), JsonValue::String("write".to_string())),
            ]),
            next_actions: vec![
                NextAction {
                    command: "lowmain schema".to_string(),
                    description: "Check schema after mutation".to_string(),
                    params: vec![],
                },
                another_query(),
            ],
        }
    );
    assert!(!has_field(&output.data, "truncated"));
    assert!(!has_field(&output.data, "rows"));
    assert!(!has_field(&output.data, "count"));
    assert!(!has_field(&output.data, "limit"));
    // a write is run, not executed, and rows and limit do not change its answer
    assert_eq!(store_call(&plan), StoreCall::Run);
    assert_eq!(query_response(&plan, &vec![numbered(1), numbered(2)]), output);
    assert_eq!(query_response(&plan, &vec![]), output);
    let read = query_plan(Some("CREATE (n:X)"), None, Some("1"), false, &given(Some("pw"))).unwrap();
    assert_eq!(store_call(&read), StoreCall::Execute);
    assert_eq!(query_response(&read, &vec![numbered(1)]), read_response(&read, &vec![numbered(1)]));
    assert!(has_field(&read_output("Q", vec![], 1).data, "truncated"));
}

#[test]
fn truncation_is_marked_when_the_count_reaches_the_limit() {
    let truncated = |count: usize, limit: usize| -> JsonValue {
        let documents: Vec<JsonValue> = (0..count).map(|_| JsonValue::Null).collect();
        match read_output("Q", documents, limit).data {
            JsonValue::Object(mut fields) => fields.remove(3).1,
            _ => panic!("not an object"),
        }
    };
    assert_eq!(truncated(0, 1), JsonValue::Bool(false));
    assert_eq!(truncated(1, 1), JsonValue::Bool(true));
    assert_eq!(truncated(2, 3), JsonValue::Bool(false));
    assert_eq!(truncated(3, 3), JsonValue::Bool(true));
    assert_eq!(truncated(5, 3), JsonValue::Bool(true));
    // with a limit of zero nothing is collected and the answer says truncated
    assert_eq!(truncated(0, 0), JsonValue::Bool(true));
}

#[test]
fn no_more_rows_than_the_limit_are_collected() {
    let rows = vec![numbered(1), numbered(2), numbered(3)];
    assert_eq!(collect_documents(&rows, 0), vec![]);
    assert_eq!(collect_documents(&rows, 2), vec![document(r#"{"x":1}"#), document(r#"{"x":2}"#)]);
    assert_eq!(collect_documents(&rows, 3).len(), 3);
    assert_eq!(collect_documents(&rows, 100).len(), 3);
    assert_eq!(collect_documents(&vec![], 100), vec![]);
}
