use lowmain::error::{classify, map_neo4j_error, AppError, CommandError, ErrorKind};

#[test]
fn refused_connection_is_retryable_connection_failure() {
    let e = classify("tcp connect error: refused by peer".to_string());
    assert_eq!(e.kind(), ErrorKind::ConnectionFailed);
    assert!(e.retryable());
    assert_eq!(e.code(), "CONNECTION_FAILED");
    assert_eq!(
        e,
        AppError::ConnectionFailed { reason: "tcp connect error: refused by peer".to_string() }
    );
}

#[test]
fn classification_tries_markers_in_order() {
    // authentication wins over everything that follows
    let e = classify("Connection refused: bad credentials".to_string());
    assert_eq!(e.kind(), ErrorKind::AuthenticationFailed);
    assert!(!e.retryable());
    // syntax wins over constraint and connection
    let e = classify("SyntaxError near 'already exists' on connection".to_string());
    assert_eq!(e.kind(), ErrorKind::CypherSyntaxError);
    // constraint wins over connection
    let e = classify("Node already exists, Connection reset".to_string());
    assert_eq!(e.kind(), ErrorKind::ConstraintViolation);
}

#[test]
fn each_marker_classifies() {
    let cases: Vec<(&str, ErrorKind)> = vec![
        ("authentication failure", ErrorKind::AuthenticationFailed),
        ("Neo.ClientError.Security.Unauthorized", ErrorKind::AuthenticationFailed),
        ("invalid credentials", ErrorKind::AuthenticationFailed),
        ("Neo.ClientError.Statement.SyntaxError", ErrorKind::CypherSyntaxError),
        ("Invalid input 'X'", ErrorKind::CypherSyntaxError),
        ("ConstraintValidationFailed", ErrorKind::ConstraintViolation),
        ("already exists", ErrorKind::ConstraintViolation),
        ("connection error", ErrorKind::ConnectionFailed),
        ("Connection reset", ErrorKind::ConnectionFailed),
        ("refused", ErrorKind::ConnectionFailed),
        ("something else entirely", ErrorKind::QueryFailed),
        ("", ErrorKind::QueryFailed),
        // markers are case-sensitive
        ("AUTHENTICATION", ErrorKind::QueryFailed),
        ("syntaxerror", ErrorKind::QueryFailed),
    ];
    for (text, kind) in cases {
        assert_eq!(classify(text.to_string()).kind(), kind, "for {:?}", text);
    }
}

#[test]
fn driver_errors_are_classified_by_their_text() {
    let e = map_neo4j_error(neo4rs::Error::ConnectionError);
    assert_eq!(e, AppError::ConnectionFailed { reason: "connection error".to_string() });
    assert!(e.retryable());

    let e = map_neo4j_error(neo4rs::Error::AuthenticationError("bad credentials".to_string()));
    assert_eq!(e, AppError::AuthenticationFailed { reason: "bad credentials".to_string() });

    let e = map_neo4j_error(neo4rs::Error::UnexpectedMessage("Invalid input at 3".to_string()));
    assert_eq!(e, AppError::CypherSyntaxError { detail: "Invalid input at 3".to_string() });

    let e = map_neo4j_error(neo4rs::Error::InvalidConfig);
    assert_eq!(e, AppError::QueryFailed { reason: "invalid config".to_string() });
}

#[test]
fn delete_with_relationships_surfaces_a_failure() {
    // what the store says when a node that still has relationships is deleted
    let text = "Neo4j error `Neo.ClientError.Schema.ConstraintValidationFailed`: Cannot delete node<7>, because it still has relationships. To delete this node, you must first delete its relationships.";
    let e = classify(text.to_string());
    assert_eq!(e.kind(), ErrorKind::ConstraintViolation);
    assert_eq!(e.code(), "CONSTRAINT_VIOLATION");
    assert!(!e.retryable());
    // without the status code the same failure is a failed query
    let e = classify("Cannot delete node<7>, because it still has relationships.".to_string());
    assert_eq!(e.kind(), ErrorKind::QueryFailed);
    assert!(!e.retryable());
}

#[test]
fn messages_carry_the_detail() {
    assert_eq!(
        AppError::ConnectionFailed { reason: "timeout".into() }.message(),
        "Connection failed: timeout"
    );
    assert_eq!(
        AppError::AuthenticationFailed { reason: "bad pw".into() }.message(),
        "Authentication failed: bad pw"
    );
    assert_eq!(
        AppError::CypherSyntaxError { detail: "oops".into() }.message(),
        "Cypher syntax error: oops"
    );
    assert_eq!(
        AppError::ConstraintViolation { detail: "dup".into() }.message(),
        "Constraint violation: dup"
    );
    assert_eq!(AppError::QueryFailed { reason: "fail".into() }.message(), "Query failed: fail");
    assert_eq!(AppError::NodeNotFound { id: "42".into() }.message(), "Node not found: 42");
    assert_eq!(AppError::RelNotFound { id: "7".into() }.message(), "Relationship not found: 7");
    assert_eq!(
        AppError::ConnectionNotConfigured.message(),
        "Connection not configured \u{2014} NEO4J_PASSWORD is required"
    );
    assert_eq!(
        AppError::InvalidParams { reason: "bad json".into() }.message(),
        "Invalid parameters: bad json"
    );
}

#[test]
fn fixes_are_fixed_by_kind_and_name_missing_ids() {
    assert_eq!(
        AppError::ConnectionFailed { reason: "r".into() }.fix(),
        "Check that Neo4j is running and the URI is correct. Default: bolt://localhost:7687"
    );
    assert_eq!(
        AppError::AuthenticationFailed { reason: "r".into() }.fix(),
        "Check NEO4J_USER and NEO4J_PASSWORD, or pass --user and --password"
    );
    assert_eq!(
        AppError::CypherSyntaxError { detail: "d".into() }.fix(),
        "Check Cypher syntax. Run `lowmain schema` to see available labels and types"
    );
    assert_eq!(
        AppError::ConstraintViolation { detail: "d".into() }.fix(),
        "Check `lowmain schema constraints` for active constraints"
    );
    assert_eq!(
        AppError::QueryFailed { reason: "r".into() }.fix(),
        "Check the query and parameters. Run `lowmain schema` to explore the database"
    );
    assert_eq!(
        AppError::NodeNotFound { id: "42".into() }.fix(),
        "No node with ID 42. Run `lowmain node find` to list nodes"
    );
    assert_eq!(
        AppError::RelNotFound { id: "7".into() }.fix(),
        "No relationship with ID 7. Run `lowmain rel find` to list relationships"
    );
    assert_eq!(
        AppError::ConnectionNotConfigured.fix(),
        "Set NEO4J_PASSWORD env var or pass --password. Example: NEO4J_PASSWORD=secret lowmain ping"
    );
    assert_eq!(
        AppError::InvalidParams { reason: "r".into() }.fix(),
        "Check parameter format. --params expects a JSON object, --props expects a JSON object"
    );
}

#[test]
fn envelope_carries_all_four_fields() {
    let envelope = CommandError::from(AppError::NodeNotFound { id: "0042".into() });
    assert_eq!(
        envelope,
        CommandError {
            message: "Node not found: 0042".to_string(),
            code: "NODE_NOT_FOUND".to_string(),
            fix: "No node with ID 0042. Run `lowmain node find` to list nodes".to_string(),
            retryable: false,
        }
    );
    let envelope = CommandError::from(AppError::ConnectionFailed { reason: "refused".into() });
    assert!(envelope.retryable);
}
