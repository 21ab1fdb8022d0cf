//! The closed taxonomy of failures, and the classification of a driver
//! failure by the text that describes it.

use crate::text::{contains, occurs_in};
use vstd::prelude::*;
use vstd::string::*;

verus! {

/// The nine kinds of failure.
#[derive(Clone, Copy, Debug, PartialEq, Eq, Structural)]
pub enum ErrorKind {
    ConnectionFailed,
    AuthenticationFailed,
    CypherSyntaxError,
    ConstraintViolation,
    QueryFailed,
    NodeNotFound,
    RelNotFound,
    ConnectionNotConfigured,
    InvalidParams,
}

/// A classified failure: its kind, and the text that it carries.
#[derive(Debug, PartialEq, Eq)]
pub enum AppError {
    ConnectionFailed { reason: String },
    AuthenticationFailed { reason: String },
    CypherSyntaxError { detail: String },
    ConstraintViolation { detail: String },
    QueryFailed { reason: String },
    NodeNotFound { id: String },
    RelNotFound { id: String },
    ConnectionNotConfigured,
    InvalidParams { reason: String },
}

/// What a classified failure is, as mathematics: its kind and the text it
/// carries (empty for a kind that carries none).
pub struct ErrorModel {
    pub kind: ErrorKind,
    pub detail: Seq<char>,
}

impl View for AppError {
    type V = ErrorModel;

    open spec fn view(&self) -> ErrorModel {
        match self {
            AppError::ConnectionFailed { reason } => ErrorModel {
                kind: ErrorKind::ConnectionFailed,
                detail: reason@,
            },
            AppError::AuthenticationFailed { reason } => ErrorModel {
                kind: ErrorKind::AuthenticationFailed,
                detail: reason@,
            },
            AppError::CypherSyntaxError { detail } => ErrorModel {
                kind: ErrorKind::CypherSyntaxError,
                detail: detail@,
            },
            AppError::ConstraintViolation { detail } => ErrorModel {
                kind: ErrorKind::ConstraintViolation,
                detail: detail@,
            },
            AppError::QueryFailed { reason } => ErrorModel {
                kind: ErrorKind::QueryFailed,
                detail: reason@,
            },
            AppError::NodeNotFound { id } => ErrorModel { kind: ErrorKind::NodeNotFound, detail: id@ },
            AppError::RelNotFound { id } => ErrorModel { kind: ErrorKind::RelNotFound, detail: id@ },
            AppError::ConnectionNotConfigured => ErrorModel {
                kind: ErrorKind::ConnectionNotConfigured,
                detail: Seq::empty(),
            },
            AppError::InvalidParams { reason } => ErrorModel {
                kind: ErrorKind::InvalidParams,
                detail: reason@,
            },
        }
    }
}

/// The stable code of a kind.
pub open spec fn code_of(kind: ErrorKind) -> Seq<char> {
    match kind {
        ErrorKind::ConnectionFailed => "CONNECTION_FAILED"@,
        ErrorKind::AuthenticationFailed => "AUTH_FAILED"@,
        ErrorKind::CypherSyntaxError => "CYPHER_SYNTAX_ERROR"@,
        ErrorKind::ConstraintViolation => "CONSTRAINT_VIOLATION"@,
        ErrorKind::QueryFailed => "QUERY_FAILED"@,
        ErrorKind::NodeNotFound => "NODE_NOT_FOUND"@,
        ErrorKind::RelNotFound => "REL_NOT_FOUND"@,
        ErrorKind::ConnectionNotConfigured => "CONNECTION_NOT_CONFIGURED"@,
        ErrorKind::InvalidParams => "INVALID_PARAMS"@,
    }
}

/// Whether a failure of this kind may succeed when the same call is made
/// again: only a failed connection may.
pub open spec fn retryable_kind(kind: ErrorKind) -> bool {
    kind == ErrorKind::ConnectionFailed
}

/// The human message of a failure.
pub open spec fn message_of(error: ErrorModel) -> Seq<char> {
    match error.kind {
        ErrorKind::ConnectionFailed => "Connection failed: "@ + error.detail,
        ErrorKind::AuthenticationFailed => "Authentication failed: "@ + error.detail,
        ErrorKind::CypherSyntaxError => "Cypher syntax error: "@ + error.detail,
        ErrorKind::ConstraintViolation => "Constraint violation: "@ + error.detail,
        ErrorKind::QueryFailed => "Query failed: "@ + error.detail,
        ErrorKind::NodeNotFound => "Node not found: "@ + error.detail,
        ErrorKind::RelNotFound => "Relationship not found: "@ + error.detail,
        ErrorKind::ConnectionNotConfigured => "Connection not configured — NEO4J_PASSWORD is required"@,
        ErrorKind::InvalidParams => "Invalid parameters: "@ + error.detail,
    }
}

/// The remediation hint of a failure. It is fixed by the kind, but for the
/// two kinds of missing entity, whose hint names the id that was asked for.
pub open spec fn fix_of(error: ErrorModel) -> Seq<char> {
    match error.kind {
        ErrorKind::ConnectionFailed => "Check that Neo4j is running and the URI is correct. Default: bolt://localhost:7687"@,
        ErrorKind::AuthenticationFailed => "Check NEO4J_USER and NEO4J_PASSWORD, or pass --user and --password"@,
        ErrorKind::CypherSyntaxError => "Check Cypher syntax. Run `lowmain schema` to see available labels and types"@,
        ErrorKind::ConstraintViolation => "Check `lowmain schema constraints` for active constraints"@,
        ErrorKind::QueryFailed => "Check the query and parameters. Run `lowmain schema` to explore the database"@,
        ErrorKind::NodeNotFound => "No node with ID "@ + error.detail
            + ". Run `lowmain node find` to list nodes"@,
        ErrorKind::RelNotFound => "No relationship with ID "@ + error.detail
            + ". Run `lowmain rel find` to list relationships"@,
        ErrorKind::ConnectionNotConfigured => "Set NEO4J_PASSWORD env var or pass --password. Example: NEO4J_PASSWORD=secret lowmain ping"@,
        ErrorKind::InvalidParams => "Check parameter format. --params expects a JSON object, --props expects a JSON object"@,
    }
}

/// The text speaks of authentication, authorization or credentials.
pub open spec fn names_authentication(text: Seq<char>) -> bool {
    occurs_in(text, "authentication"@) || occurs_in(text, "Unauthorized"@) || occurs_in(
        text,
        "credentials"@,
    )
}

/// The text speaks of a syntax error or of invalid input.
pub open spec fn names_syntax(text: Seq<char>) -> bool {
    occurs_in(text, "SyntaxError"@) || occurs_in(text, "Invalid input"@)
}

/// The text speaks of a violated constraint or of a duplicate.
pub open spec fn names_constraint(text: Seq<char>) -> bool {
    occurs_in(text, "ConstraintValidationFailed"@) || occurs_in(text, "already exists"@)
}

/// The text speaks of a connection, or of one that was refused.
pub open spec fn names_connection(text: Seq<char>) -> bool {
    occurs_in(text, "connection"@) || occurs_in(text, "Connection"@) || occurs_in(
        text,
        "refused"@,
    )
}

/// The kind of a driver failure, by the text that describes it. The markers
/// are tried in this order and the first that is found decides; a text with
/// none of them is a failed query.
pub open spec fn classified_kind(text: Seq<char>) -> ErrorKind {
    if names_authentication(text) {
        ErrorKind::AuthenticationFailed
    } else if names_syntax(text) {
        ErrorKind::CypherSyntaxError
    } else if names_constraint(text) {
        ErrorKind::ConstraintViolation
    } else if names_connection(text) {
        ErrorKind::ConnectionFailed
    } else {
        ErrorKind::QueryFailed
    }
}

impl AppError {
    /// The kind of this failure.
    pub fn kind(&self) -> (kind: ErrorKind)
        ensures
            kind == self@.kind,
    {
        match self {
            AppError::ConnectionFailed { .. } => ErrorKind::ConnectionFailed,
            AppError::AuthenticationFailed { .. } => ErrorKind::AuthenticationFailed,
            AppError::CypherSyntaxError { .. } => ErrorKind::CypherSyntaxError,
            AppError::ConstraintViolation { .. } => ErrorKind::ConstraintViolation,
            AppError::QueryFailed { .. } => ErrorKind::QueryFailed,
            AppError::NodeNotFound { .. } => ErrorKind::NodeNotFound,
            AppError::RelNotFound { .. } => ErrorKind::RelNotFound,
            AppError::ConnectionNotConfigured => ErrorKind::ConnectionNotConfigured,
            AppError::InvalidParams { .. } => ErrorKind::InvalidParams,
        }
    }

    /// The stable code that a caller branches on.
    pub fn code(&self) -> (code: &'static str)
        ensures
            code@ == code_of(self@.kind),
    {
        match self {
            AppError::ConnectionFailed { .. } => "CONNECTION_FAILED",
            AppError::AuthenticationFailed { .. } => "AUTH_FAILED",
            AppError::CypherSyntaxError { .. } => "CYPHER_SYNTAX_ERROR",
            AppError::ConstraintViolation { .. } => "CONSTRAINT_VIOLATION",
            AppError::QueryFailed { .. } => "QUERY_FAILED",
            AppError::NodeNotFound { .. } => "NODE_NOT_FOUND",
            AppError::RelNotFound { .. } => "REL_NOT_FOUND",
            AppError::ConnectionNotConfigured => "CONNECTION_NOT_CONFIGURED",
            AppError::InvalidParams { .. } => "INVALID_PARAMS",
        }
    }

    /// Whether the same call may succeed later.
    pub fn retryable(&self) -> (retry: bool)
        ensures
            retry == retryable_kind(self@.kind),
    {
        match self {
            AppError::ConnectionFailed { .. } => true,
            _ => false,
        }
    }

    /// How to recover.
    pub fn fix(&self) -> (fix: String)
        ensures
            fix@ == fix_of(self@),
    {
        match self {
            AppError::ConnectionFailed { .. } => String::from_str(
                "Check that Neo4j is running and the URI is correct. Default: bolt://localhost:7687",
            ),
            AppError::AuthenticationFailed { .. } => String::from_str(
                "Check NEO4J_USER and NEO4J_PASSWORD, or pass --user and --password",
            ),
            AppError::CypherSyntaxError { .. } => String::from_str(
                "Check Cypher syntax. Run `lowmain schema` to see available labels and types",
            ),
            AppError::ConstraintViolation { .. } => String::from_str(
                "Check `lowmain schema constraints` for active constraints",
            ),
            AppError::QueryFailed { .. } => String::from_str(
                "Check the query and parameters. Run `lowmain schema` to explore the database",
            ),
            AppError::NodeNotFound { id } => {
                let mut fix = String::from_str("No node with ID ");
                fix.append(id.as_str());
                fix.append(". Run `lowmain node find` to list nodes");
                fix
            },
            AppError::RelNotFound { id } => {
                let mut fix = String::from_str("No relationship with ID ");
                fix.append(id.as_str());
                fix.append(". Run `lowmain rel find` to list relationships");
                fix
            },
            AppError::ConnectionNotConfigured => String::from_str(
                "Set NEO4J_PASSWORD env var or pass --password. Example: NEO4J_PASSWORD=secret lowmain ping",
            ),
            AppError::InvalidParams { .. } => String::from_str(
                "Check parameter format. --params expects a JSON object, --props expects a JSON object",
            ),
        }
    }

    /// What went wrong, in words.
    pub fn message(&self) -> (message: String)
        ensures
            message@ == message_of(self@),
    {
        match self {
            AppError::ConnectionFailed { reason } => prefixed("Connection failed: ", reason),
            AppError::AuthenticationFailed { reason } => prefixed(
                "Authentication failed: ",
                reason,
            ),
            AppError::CypherSyntaxError { detail } => prefixed("Cypher syntax error: ", detail),
            AppError::ConstraintViolation { detail } => prefixed("Constraint violation: ", detail),
            AppError::QueryFailed { reason } => prefixed("Query failed: ", reason),
            AppError::NodeNotFound { id } => prefixed("Node not found: ", id),
            AppError::RelNotFound { id } => prefixed("Relationship not found: ", id),
            AppError::ConnectionNotConfigured => String::from_str(
                "Connection not configured — NEO4J_PASSWORD is required",
            ),
            AppError::InvalidParams { reason } => prefixed("Invalid parameters: ", reason),
        }
    }
}

/// `prefix` followed by `rest`.
fn prefixed(prefix: &str, rest: &String) -> (text: String)
    ensures
        text@ == prefix@ + rest@,
{
    let mut text = String::from_str(prefix);
    text.append(rest.as_str());
    text
}

/// The envelope under which every failure reaches the caller.
#[derive(Debug, PartialEq, Eq)]
pub struct CommandError {
    pub message: String,
    pub code: String,
    pub fix: String,
    pub retryable: bool,
}

/// `envelope` carries exactly what `error` says of itself.
pub open spec fn envelope_of(error: ErrorModel, envelope: CommandError) -> bool {
    &&& envelope.message@ == message_of(error)
    &&& envelope.code@ == code_of(error.kind)
    &&& envelope.fix@ == fix_of(error)
    &&& envelope.retryable == retryable_kind(error.kind)
}

impl From<AppError> for CommandError {
    fn from(err: AppError) -> (envelope: CommandError)
        ensures
            envelope_of(err@, envelope),
    {
        CommandError {
            message: err.message(),
            code: String::from_str(err.code()),
            fix: err.fix(),
            retryable: err.retryable(),
        }
    }
}

impl vstd::std_specs::convert::FromSpecImpl<AppError> for CommandError {
    open spec fn obeys_from_spec() -> bool {
        false
    }

    open spec fn from_spec(v: AppError) -> CommandError {
        choose|envelope: CommandError| envelope_of(v@, envelope)
    }
}

/// The line that is printed when the program itself fails: an error envelope
/// with the code `PANIC`, never to be retried. The message is written into
/// the line as it is.
pub open spec fn panic_line(message: Seq<char>) -> Seq<char> {
    "{\"ok\":false,\"error\":{\"message\":\"Internal error: "@ + message
        + "\",\"code\":\"PANIC\",\"retryable\":false},\"fix\":\"Report this bug\"}"@
}

/// The line that is printed when the program itself fails.
pub fn panic_envelope(message: &str) -> (line: String)
    ensures
        line@ == panic_line(message@),
{
    let mut line = String::from_str("{\"ok\":false,\"error\":{\"message\":\"Internal error: ");
    line.append(message);
    line.append("\",\"code\":\"PANIC\",\"retryable\":false},\"fix\":\"Report this bug\"}");
    line
}

/// Classifies a driver failure by its description. The result carries the
/// description unchanged.
pub fn classify(description: String) -> (error: AppError)
    ensures
        error@.kind == classified_kind(description@),
        error@.detail == description@,
{
    let text = description.as_str();
    if contains(text, "authentication") || contains(text, "Unauthorized") || contains(
        text,
        "credentials",
    ) {
        AppError::AuthenticationFailed { reason: description }
    } else if contains(text, "SyntaxError") || contains(text, "Invalid input") {
        AppError::CypherSyntaxError { detail: description }
    } else if contains(text, "ConstraintValidationFailed") || contains(text, "already exists") {
        AppError::ConstraintViolation { detail: description }
    } else if contains(text, "connection") || contains(text, "Connection") || contains(
        text,
        "refused",
    ) {
        AppError::ConnectionFailed { reason: description }
    } else {
        AppError::QueryFailed { reason: description }
    }
}

/// Classifies a failure of the driver by the text that describes it: the
/// result carries the driver's description of the failure and is of the kind
/// that the description is classified as.
pub fn map_neo4j_error(err: neo4rs::Error) -> (error: AppError)
    ensures
        error@.detail == crate::driver::driver_error_text(err),
        error@.kind == classified_kind(crate::driver::driver_error_text(err)),
{
    classify(crate::driver::error_text(&err))
}

/// A description that names a refused connection, and nothing that is tried
/// before the connection markers, is classified as a failed connection, and
/// that kind may be tried again.
pub proof fn law_refused_connection_is_retryable(description: Seq<char>)
    requires
        occurs_in(description, "refused"@),
        !names_authentication(description),
        !names_syntax(description),
        !names_constraint(description),
    ensures
        classified_kind(description) == ErrorKind::ConnectionFailed,
        retryable_kind(classified_kind(description)),
{
}

/// No kind but a failed connection may be tried again.
pub proof fn law_only_connection_failures_retry(kind: ErrorKind)
    ensures
        retryable_kind(kind) <==> kind == ErrorKind::ConnectionFailed,
{
}

/// Classification yields one of its five kinds and never a kind that the
/// operations raise themselves.
pub proof fn law_classification_is_closed(description: Seq<char>)
    ensures
        ({
            let kind = classified_kind(description);
            kind == ErrorKind::AuthenticationFailed || kind == ErrorKind::CypherSyntaxError || kind
                == ErrorKind::ConstraintViolation || kind == ErrorKind::ConnectionFailed || kind
                == ErrorKind::QueryFailed
        }),
{
}

} // verus!
