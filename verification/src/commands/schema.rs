//! Schema introspection: labels, relationship types, indexes, constraints,
//! and the numbers of nodes and relationships. Its queries are fixed and
//! take no parameter.

use crate::actions::{
    actions_model, literal_action, required_bare_param, required_choice_param, required_param,
    ActionModel, ActionParam, CommandOutput, NextAction, OutputModel,
};
use crate::commands::{
    not_configured, presents, specs_model, CommandGroup, CommandGroupModel, CommandSpec, Plan,
};
use crate::connection::{
    connection_config, password_of, resolves_to, ConnectionConfig, ConnectionSources,
};
use crate::commands::nodes::{suggested_count, MAX_ENTITY_SUGGESTIONS};
use crate::commands::query::row_documents;
use crate::convert::{document_json, row_to_json};
use crate::cypher::{fixed_query, QueryModel, QueryRequest};
use crate::driver::{row_document_of, row_integer, row_integer_of, row_text, row_text_of};
use crate::error::AppError;
use crate::json::{field, fields_of, models_of, strings_model, JsonModel, JsonValue};
use crate::text::{copy_texts, enclose, join, texts_model};
use vstd::prelude::*;
use vstd::string::*;

verus! {

/// The text of the query that lists the labels, in order.
pub open spec fn labels_text() -> Seq<char> {
    "CALL db.labels() YIELD label RETURN label ORDER BY label"@
}

/// The text of the query that lists the relationship types, in order.
pub open spec fn types_text() -> Seq<char> {
    "CALL db.relationshipTypes() YIELD relationshipType RETURN relationshipType ORDER BY relationshipType"@
}

/// The text of the query that lists the indexes.
pub open spec fn indexes_text() -> Seq<char> {
    "SHOW INDEXES YIELD name, type, labelsOrTypes, properties, state"@
}

/// The text of the query that lists the constraints.
pub open spec fn constraints_text() -> Seq<char> {
    "SHOW CONSTRAINTS YIELD name, type, labelsOrTypes, properties"@
}

/// The text of the query that counts the nodes.
pub open spec fn node_count_text() -> Seq<char> {
    "MATCH (n) RETURN count(n) AS node_count"@
}

/// The text of the query that counts the relationships.
pub open spec fn relationship_count_text() -> Seq<char> {
    "MATCH ()-[r]->() RETURN count(r) AS rel_count"@
}

/// The text of the query that only shows that the store answers.
pub open spec fn ping_text() -> Seq<char> {
    "RETURN 1 AS ok"@
}

/// A query of a fixed text, without parameters.
pub open spec fn parameterless(text: Seq<char>) -> QueryModel {
    QueryModel { text, params: Seq::empty() }
}

/// The query that lists the labels.
pub fn labels_query() -> (query: QueryRequest)
    ensures
        query@ == parameterless(labels_text()),
{
    fixed_query("CALL db.labels() YIELD label RETURN label ORDER BY label")
}

/// The query that lists the relationship types.
pub fn types_query() -> (query: QueryRequest)
    ensures
        query@ == parameterless(types_text()),
{
    fixed_query(
        "CALL db.relationshipTypes() YIELD relationshipType RETURN relationshipType ORDER BY relationshipType",
    )
}

/// The query that lists the indexes.
pub fn indexes_query() -> (query: QueryRequest)
    ensures
        query@ == parameterless(indexes_text()),
{
    fixed_query("SHOW INDEXES YIELD name, type, labelsOrTypes, properties, state")
}

/// The query that lists the constraints.
pub fn constraints_query() -> (query: QueryRequest)
    ensures
        query@ == parameterless(constraints_text()),
{
    fixed_query("SHOW CONSTRAINTS YIELD name, type, labelsOrTypes, properties")
}

/// The query that counts the nodes.
pub fn node_count_query() -> (query: QueryRequest)
    ensures
        query@ == parameterless(node_count_text()),
{
    fixed_query("MATCH (n) RETURN count(n) AS node_count")
}

/// The query that counts the relationships.
pub fn relationship_count_query() -> (query: QueryRequest)
    ensures
        query@ == parameterless(relationship_count_text()),
{
    fixed_query("MATCH ()-[r]->() RETURN count(r) AS rel_count")
}

/// The queries of the overview of the schema, in the order in which they
/// are run. A failure of one ends the overview.
#[derive(Debug, PartialEq)]
pub struct OverviewPlan {
    pub config: ConnectionConfig,
    pub labels: QueryRequest,
    pub types: QueryRequest,
    pub indexes: QueryRequest,
    pub constraints: QueryRequest,
}

/// The two queries of the count, the nodes first.
#[derive(Debug, PartialEq)]
pub struct CountPlan {
    pub config: ConnectionConfig,
    pub nodes: QueryRequest,
    pub relationships: QueryRequest,
}

/// Plans one query of the schema. It fails if and only if no source gives a
/// password.
pub fn list_plan(sources: &ConnectionSources, query: QueryRequest) -> (planned: Result<
    Plan,
    AppError,
>)
    ensures
        match planned {
            Ok(p) => resolves_to(*sources, p.config) && p.query == query,
            Err(e) => password_of(*sources) is None && e@ == not_configured(),
        },
{
    let config = match connection_config(sources) {
        Ok(config) => config,
        Err(e) => {
            return Err(e);
        },
    };
    Ok(Plan { config, query })
}

/// Plans the overview of the schema. It fails if and only if no source
/// gives a password.
pub fn overview_plan(sources: &ConnectionSources) -> (planned: Result<OverviewPlan, AppError>)
    ensures
        match planned {
            Ok(p) => {
                &&& resolves_to(*sources, p.config)
                &&& p.labels@ == parameterless(labels_text())
                &&& p.types@ == parameterless(types_text())
                &&& p.indexes@ == parameterless(indexes_text())
                &&& p.constraints@ == parameterless(constraints_text())
            },
            Err(e) => password_of(*sources) is None && e@ == not_configured(),
        },
{
    let config = match connection_config(sources) {
        Ok(config) => config,
        Err(e) => {
            return Err(e);
        },
    };
    Ok(
        OverviewPlan {
            config,
            labels: labels_query(),
            types: types_query(),
            indexes: indexes_query(),
            constraints: constraints_query(),
        },
    )
}

/// Plans the count. It fails if and only if no source gives a password.
pub fn count_plan(sources: &ConnectionSources) -> (planned: Result<CountPlan, AppError>)
    ensures
        match planned {
            Ok(p) => {
                &&& resolves_to(*sources, p.config)
                &&& p.nodes@ == parameterless(node_count_text())
                &&& p.relationships@ == parameterless(relationship_count_text())
            },
            Err(e) => password_of(*sources) is None && e@ == not_configured(),
        },
{
    let config = match connection_config(sources) {
        Ok(config) => config,
        Err(e) => {
            return Err(e);
        },
    };
    Ok(CountPlan { config, nodes: node_count_query(), relationships: relationship_count_query() })
}

/// The JSON strings of a sequence of texts.
pub open spec fn text_array(texts: Seq<Seq<char>>) -> Seq<JsonModel> {
    Seq::new(texts.len(), |i: int| JsonModel::String(texts[i]))
}

/// The suggestion to find the nodes of a label.
pub open spec fn label_suggestion(label: Seq<char>) -> ActionModel {
    literal_action("lowmain node find --label="@ + label, "Find "@ + label + " nodes"@)
}

/// The suggestion to find the relationships of a type.
pub open spec fn type_suggestion(rel_type: Seq<char>) -> ActionModel {
    literal_action("lowmain rel find --type="@ + rel_type, "Find "@ + rel_type + " relationships"@)
}

/// One suggestion for each of the first labels, in order: no more of them
/// than an answer suggests for what it found.
pub open spec fn label_suggestions(labels: Seq<Seq<char>>) -> Seq<ActionModel> {
    Seq::new(suggested_count(labels.len()), |i: int| label_suggestion(labels[i]))
}

/// One suggestion for each of the first relationship types, in order: no
/// more of them than an answer suggests for what it found.
pub open spec fn type_suggestions(types: Seq<Seq<char>>) -> Seq<ActionModel> {
    Seq::new(suggested_count(types.len()), |i: int| type_suggestion(types[i]))
}

/// The answer to the list of labels: all labels, and a suggestion for each
/// of the first of them.
pub open spec fn labels_output_of(labels: Seq<Seq<char>>) -> OutputModel {
    OutputModel {
        data: JsonModel::Object(seq![("labels"@, JsonModel::Array(text_array(labels)))]),
        next_actions: label_suggestions(labels),
    }
}

/// The answer to the list of relationship types: all types, and a
/// suggestion for each of the first of them.
pub open spec fn types_output_of(types: Seq<Seq<char>>) -> OutputModel {
    OutputModel {
        data: JsonModel::Object(
            seq![("relationship_types"@, JsonModel::Array(text_array(types)))],
        ),
        next_actions: type_suggestions(types),
    }
}

/// The answer to the list of indexes.
pub open spec fn indexes_output_of(indexes: Seq<JsonModel>) -> OutputModel {
    OutputModel {
        data: JsonModel::Object(seq![("indexes"@, JsonModel::Array(indexes))]),
        next_actions: seq![literal_action("lowmain schema constraints"@, "View constraints"@)],
    }
}

/// The answer to the list of constraints.
pub open spec fn constraints_output_of(constraints: Seq<JsonModel>) -> OutputModel {
    OutputModel {
        data: JsonModel::Object(seq![("constraints"@, JsonModel::Array(constraints))]),
        next_actions: seq![literal_action("lowmain schema indexes"@, "View indexes"@)],
    }
}

/// The number that a count reports: that of its column in the first row, or
/// zero where there is no row or the column holds no integer.
pub open spec fn count_of(reported: Option<Option<i64>>) -> i64 {
    match reported {
        Some(Some(n)) => n,
        _ => 0,
    }
}

/// The answer to the count.
pub open spec fn count_output_of(nodes: i64, relationships: i64) -> OutputModel {
    OutputModel {
        data: JsonModel::Object(
            seq![
                ("node_count"@, JsonModel::Integer(nodes)),
                ("relationship_count"@, JsonModel::Integer(relationships)),
            ],
        ),
        next_actions: seq![
            literal_action("lowmain schema labels"@, "View labels"@),
            literal_action("lowmain schema types"@, "View relationship types"@),
        ],
    }
}

/// The suggestion to create a node of one of the labels that exist; the
/// caller picks the label and adds the properties.
pub open spec fn create_any_suggestion(labels: Seq<Seq<char>>) -> ActionModel {
    ActionModel {
        command: "lowmain node create"@,
        description: "Create a new node"@,
        params: seq![
            ("--label"@, required_choice_param("Node label"@, labels)),
            ("--props"@, required_param("JSON properties"@)),
        ],
    }
}

/// The suggestion to run a query; the caller adds the text.
pub open spec fn run_query_suggestion() -> ActionModel {
    ActionModel {
        command: "lowmain query"@,
        description: "Execute a Cypher query"@,
        params: seq![("cypher"@, required_bare_param())],
    }
}

/// The answer to the overview: all four lists; a suggestion for each of the
/// first labels, one to create a node, and one to run a query.
pub open spec fn overview_output_of(
    labels: Seq<Seq<char>>,
    types: Seq<Seq<char>>,
    indexes: Seq<JsonModel>,
    constraints: Seq<JsonModel>,
) -> OutputModel {
    OutputModel {
        data: JsonModel::Object(
            seq![
                ("labels"@, JsonModel::Array(text_array(labels))),
                ("relationship_types"@, JsonModel::Array(text_array(types))),
                ("indexes"@, JsonModel::Array(indexes)),
                ("constraints"@, JsonModel::Array(constraints)),
            ],
        ),
        next_actions: label_suggestions(labels).push(create_any_suggestion(labels)).push(
            run_query_suggestion(),
        ),
    }
}

/// The JSON array of the texts.
fn texts_to_json(texts: Vec<String>) -> (array: JsonValue)
    ensures
        array@ == JsonModel::Array(text_array(texts_model(texts@))),
{
    let ghost given = texts@;
    let array = JsonValue::strings(texts);
    assert(strings_model(given) =~= text_array(texts_model(given)));
    array
}

/// One suggestion for each of the first labels.
fn label_actions(labels: &Vec<String>) -> (actions: Vec<NextAction>)
    ensures
        actions_model(actions@) == label_suggestions(texts_model(labels@)),
{
    let mut actions: Vec<NextAction> = Vec::new();
    let mut i: usize = 0;
    while i < labels.len() && i < MAX_ENTITY_SUGGESTIONS
        invariant
            i <= labels@.len(),
            i <= MAX_ENTITY_SUGGESTIONS,
            actions@.len() == i,
            forall|j: int| 0 <= j < i ==> (#[trigger] actions@[j])@ == label_suggestion(labels@[j]@),
        decreases labels@.len() - i,
    {
        let label = labels[i].as_str();
        actions.push(
            NextAction::new(
                join("lowmain node find --label=", label),
                enclose("Find ", label, " nodes"),
            ),
        );
        i = i + 1;
    }
    assert(actions_model(actions@) =~= label_suggestions(texts_model(labels@)));
    actions
}

/// One suggestion for each of the first relationship types.
fn type_actions(types: &Vec<String>) -> (actions: Vec<NextAction>)
    ensures
        actions_model(actions@) == type_suggestions(texts_model(types@)),
{
    let mut actions: Vec<NextAction> = Vec::new();
    let mut i: usize = 0;
    while i < types.len() && i < MAX_ENTITY_SUGGESTIONS
        invariant
            i <= types@.len(),
            i <= MAX_ENTITY_SUGGESTIONS,
            actions@.len() == i,
            forall|j: int| 0 <= j < i ==> (#[trigger] actions@[j])@ == type_suggestion(types@[j]@),
        decreases types@.len() - i,
    {
        let rel_type = types[i].as_str();
        actions.push(
            NextAction::new(
                join("lowmain rel find --type=", rel_type),
                enclose("Find ", rel_type, " relationships"),
            ),
        );
        i = i + 1;
    }
    assert(actions_model(actions@) =~= type_suggestions(texts_model(types@)));
    actions
}

/// Answers the list of labels.
pub fn labels_output(labels: Vec<String>) -> (output: CommandOutput)
    ensures
        output@ == labels_output_of(texts_model(labels@)),
{
    let actions = label_actions(&labels);
    let mut fields: Vec<(String, JsonValue)> = Vec::new();
    fields.push(field("labels", texts_to_json(labels)));
    assert(fields_of(fields@) =~= seq![
        ("labels"@, JsonModel::Array(text_array(texts_model(labels@)))),
    ]);
    CommandOutput { data: JsonValue::object(fields), next_actions: actions }
}

/// Answers the list of relationship types.
pub fn types_output(types: Vec<String>) -> (output: CommandOutput)
    ensures
        output@ == types_output_of(texts_model(types@)),
{
    let actions = type_actions(&types);
    let mut fields: Vec<(String, JsonValue)> = Vec::new();
    fields.push(field("relationship_types", texts_to_json(types)));
    assert(fields_of(fields@) =~= seq![
        ("relationship_types"@, JsonModel::Array(text_array(texts_model(types@)))),
    ]);
    CommandOutput { data: JsonValue::object(fields), next_actions: actions }
}

/// Answers the list of indexes.
pub fn indexes_output(indexes: Vec<JsonValue>) -> (output: CommandOutput)
    ensures
        output@ == indexes_output_of(models_of(indexes@)),
{
    let mut actions: Vec<NextAction> = Vec::new();
    actions.push(NextAction::fixed("lowmain schema constraints", "View constraints"));
    assert(actions_model(actions@) =~= indexes_output_of(models_of(indexes@)).next_actions);
    let mut fields: Vec<(String, JsonValue)> = Vec::new();
    fields.push(field("indexes", JsonValue::array(indexes)));
    assert(fields_of(fields@) =~= seq![("indexes"@, JsonModel::Array(models_of(indexes@)))]);
    CommandOutput { data: JsonValue::object(fields), next_actions: actions }
}

/// Answers the list of constraints.
pub fn constraints_output(constraints: Vec<JsonValue>) -> (output: CommandOutput)
    ensures
        output@ == constraints_output_of(models_of(constraints@)),
{
    let mut actions: Vec<NextAction> = Vec::new();
    actions.push(NextAction::fixed("lowmain schema indexes", "View indexes"));
    assert(actions_model(actions@) =~= constraints_output_of(
        models_of(constraints@),
    ).next_actions);
    let mut fields: Vec<(String, JsonValue)> = Vec::new();
    fields.push(field("constraints", JsonValue::array(constraints)));
    assert(fields_of(fields@) =~= seq![
        ("constraints"@, JsonModel::Array(models_of(constraints@))),
    ]);
    CommandOutput { data: JsonValue::object(fields), next_actions: actions }
}

/// Answers the count, from what the two queries reported.
pub fn count_output(nodes: Option<Option<i64>>, relationships: Option<Option<i64>>) -> (output:
    CommandOutput)
    ensures
        output@ == count_output_of(count_of(nodes), count_of(relationships)),
{
    let node_count = match nodes {
        Some(Some(n)) => n,
        _ => 0,
    };
    let relationship_count = match relationships {
        Some(Some(n)) => n,
        _ => 0,
    };
    let mut actions: Vec<NextAction> = Vec::new();
    actions.push(NextAction::fixed("lowmain schema labels", "View labels"));
    actions.push(NextAction::fixed("lowmain schema types", "View relationship types"));
    assert(actions_model(actions@) =~= count_output_of(
        node_count,
        relationship_count,
    ).next_actions);
    let mut fields: Vec<(String, JsonValue)> = Vec::new();
    fields.push(field("node_count", JsonValue::Integer(node_count)));
    fields.push(field("relationship_count", JsonValue::Integer(relationship_count)));
    assert(fields_of(fields@) =~= seq![
        ("node_count"@, JsonModel::Integer(node_count)),
        ("relationship_count"@, JsonModel::Integer(relationship_count)),
    ]);
    CommandOutput { data: JsonValue::object(fields), next_actions: actions }
}

/// Answers the overview of the schema.
pub fn overview_output(
    labels: Vec<String>,
    types: Vec<String>,
    indexes: Vec<JsonValue>,
    constraints: Vec<JsonValue>,
) -> (output: CommandOutput)
    ensures
        output@ == overview_output_of(
            texts_model(labels@),
            texts_model(types@),
            models_of(indexes@),
            models_of(constraints@),
        ),
{
    let mut actions = label_actions(&labels);
    let ghost suggested = actions_model(actions@);
    let create = NextAction::fixed("lowmain node create", "Create a new node").with_param(
        "--label",
        ActionParam::required_choice("Node label", copy_texts(&labels)),
    ).with_param("--props", ActionParam::required("JSON properties"));
    assert(create@.params =~= create_any_suggestion(texts_model(labels@)).params);
    actions.push(create);
    let run = NextAction::fixed("lowmain query", "Execute a Cypher query").with_param(
        "cypher",
        ActionParam::required_bare(),
    );
    assert(run@.params =~= run_query_suggestion().params);
    actions.push(run);
    assert(actions_model(actions@) =~= suggested.push(
        create_any_suggestion(texts_model(labels@)),
    ).push(run_query_suggestion()));
    let mut fields: Vec<(String, JsonValue)> = Vec::new();
    fields.push(field("labels", texts_to_json(labels)));
    fields.push(field("relationship_types", texts_to_json(types)));
    fields.push(field("indexes", JsonValue::array(indexes)));
    fields.push(field("constraints", JsonValue::array(constraints)));
    assert(fields_of(fields@) =~= seq![
        ("labels"@, JsonModel::Array(text_array(texts_model(labels@)))),
        ("relationship_types"@, JsonModel::Array(text_array(texts_model(types@)))),
        ("indexes"@, JsonModel::Array(models_of(indexes@))),
        ("constraints"@, JsonModel::Array(models_of(constraints@))),
    ]);
    CommandOutput { data: JsonValue::object(fields), next_actions: actions }
}

/// The texts that the rows hold in a column, in the order of the rows. A
/// row that holds no text there adds none.
pub open spec fn column_texts(rows: Seq<neo4rs::Row>, column: Seq<char>) -> Seq<Seq<char>>
    decreases rows.len(),
{
    if rows.len() == 0 {
        Seq::empty()
    } else {
        match row_text_of(rows.last(), column) {
            Some(text) => column_texts(rows.drop_last(), column).push(text),
            None => column_texts(rows.drop_last(), column),
        }
    }
}

/// What the first row of an answer reports as an integer in a column.
pub open spec fn reported_count(row: Option<&neo4rs::Row>, column: Seq<char>) -> Option<
    Option<i64>,
> {
    match row {
        None => None,
        Some(r) => Some(row_integer_of(*r, column)),
    }
}

/// No more texts are collected than there are rows.
pub proof fn lemma_column_texts_are_bounded(rows: Seq<neo4rs::Row>, column: Seq<char>)
    ensures
        column_texts(rows, column).len() <= rows.len(),
    decreases rows.len(),
{
    if rows.len() > 0 {
        lemma_column_texts_are_bounded(rows.drop_last(), column);
    }
}

/// The texts in a column of the rows, in order. A row that holds no text
/// there is passed over.
pub fn collect_texts(rows: &Vec<neo4rs::Row>, column: &str) -> (texts: Vec<String>)
    ensures
        texts_model(texts@) == column_texts(rows@, column@),
        texts@.len() <= rows@.len(),
{
    let mut texts: Vec<String> = Vec::new();
    let mut i: usize = 0;
    assert(texts_model(texts@) =~= column_texts(rows@.take(0), column@));
    while i < rows.len()
        invariant
            i <= rows@.len(),
            texts_model(texts@) == column_texts(rows@.take(i as int), column@),
        decreases rows@.len() - i,
    {
        let ghost longer = rows@.take(i + 1);
        let ghost before = texts_model(texts@);
        assert(longer.drop_last() =~= rows@.take(i as int));
        assert(longer.last() == rows@[i as int]);
        match row_text(&rows[i], column) {
            Some(text) => {
                texts.push(text);
                assert(texts_model(texts@) =~= before.push(text@));
            },
            None => {},
        }
        i = i + 1;
    }
    assert(rows@.take(i as int) =~= rows@);
    proof {
        lemma_column_texts_are_bounded(rows@, column@);
    }
    texts
}

/// The labels that the rows of the labels query hold.
pub fn fetch_labels(rows: &Vec<neo4rs::Row>) -> (labels: Vec<String>)
    ensures
        texts_model(labels@) == column_texts(rows@, "label"@),
{
    collect_texts(rows, "label")
}

/// The relationship types that the rows of the types query hold.
pub fn fetch_rel_types(rows: &Vec<neo4rs::Row>) -> (types: Vec<String>)
    ensures
        texts_model(types@) == column_texts(rows@, "relationshipType"@),
{
    collect_texts(rows, "relationshipType")
}

/// The documents of all rows, in order: one for each row.
pub fn collect_rows(rows: &Vec<neo4rs::Row>) -> (documents: Vec<JsonValue>)
    ensures
        models_of(documents@) == row_documents(rows@, rows@.len()),
{
    let mut documents: Vec<JsonValue> = Vec::new();
    let mut i: usize = 0;
    while i < rows.len()
        invariant
            i <= rows@.len(),
            documents@.len() == i,
            forall|j: int|
                0 <= j < documents@.len() ==> (#[trigger] documents@[j])@ == document_json(
                    row_document_of(rows@[j]),
                ),
        decreases rows@.len() - i,
    {
        documents.push(row_to_json(&rows[i]));
        i = i + 1;
    }
    assert(models_of(documents@) =~= row_documents(rows@, rows@.len()));
    documents
}

/// The indexes that the rows of the indexes query hold.
pub fn fetch_indexes(rows: &Vec<neo4rs::Row>) -> (indexes: Vec<JsonValue>)
    ensures
        models_of(indexes@) == row_documents(rows@, rows@.len()),
{
    collect_rows(rows)
}

/// The constraints that the rows of the constraints query hold.
pub fn fetch_constraints(rows: &Vec<neo4rs::Row>) -> (constraints: Vec<JsonValue>)
    ensures
        models_of(constraints@) == row_documents(rows@, rows@.len()),
{
    collect_rows(rows)
}

/// Reads what a column of the first row holds as an integer, if there is a
/// row.
pub fn fetch_count(row: Option<&neo4rs::Row>, column: &str) -> (reported: Option<Option<i64>>)
    ensures
        reported == reported_count(row, column@),
{
    match row {
        None => None,
        Some(row) => Some(row_integer(row, column)),
    }
}

/// Answers the list of labels from the rows that the store returned.
pub fn labels_response(rows: &Vec<neo4rs::Row>) -> (output: CommandOutput)
    ensures
        output@ == labels_output_of(column_texts(rows@, "label"@)),
{
    labels_output(fetch_labels(rows))
}

/// Answers the list of relationship types from the rows that the store
/// returned.
pub fn types_response(rows: &Vec<neo4rs::Row>) -> (output: CommandOutput)
    ensures
        output@ == types_output_of(column_texts(rows@, "relationshipType"@)),
{
    types_output(fetch_rel_types(rows))
}

/// Answers the list of indexes from the rows that the store returned.
pub fn indexes_response(rows: &Vec<neo4rs::Row>) -> (output: CommandOutput)
    ensures
        output@ == indexes_output_of(row_documents(rows@, rows@.len())),
{
    indexes_output(fetch_indexes(rows))
}

/// Answers the list of constraints from the rows that the store returned.
pub fn constraints_response(rows: &Vec<neo4rs::Row>) -> (output: CommandOutput)
    ensures
        output@ == constraints_output_of(row_documents(rows@, rows@.len())),
{
    constraints_output(fetch_constraints(rows))
}

/// Answers the count from the first row of each of its two queries. A count
/// that cannot be read is zero.
pub fn count_response(nodes: Option<&neo4rs::Row>, relationships: Option<&neo4rs::Row>) -> (output:
    CommandOutput)
    ensures
        output@ == count_output_of(
            count_of(reported_count(nodes, "node_count"@)),
            count_of(reported_count(relationships, "rel_count"@)),
        ),
{
    count_output(fetch_count(nodes, "node_count"), fetch_count(relationships, "rel_count"))
}

/// Answers the overview from the rows of its four queries.
pub fn overview_response(
    labels: &Vec<neo4rs::Row>,
    types: &Vec<neo4rs::Row>,
    indexes: &Vec<neo4rs::Row>,
    constraints: &Vec<neo4rs::Row>,
) -> (output: CommandOutput)
    ensures
        output@ == overview_output_of(
            column_texts(labels@, "label"@),
            column_texts(types@, "relationshipType"@),
            row_documents(indexes@, indexes@.len()),
            row_documents(constraints@, constraints@.len()),
        ),
{
    overview_output(
        fetch_labels(labels),
        fetch_rel_types(types),
        fetch_indexes(indexes),
        fetch_constraints(constraints),
    )
}

/// The schema commands as they present themselves. The group itself answers
/// with the overview.
pub open spec fn schema_commands() -> CommandGroupModel {
    CommandGroupModel {
        command: presents(
            "schema"@,
            "Introspect database structure"@,
            "lowmain schema [labels|types|indexes|constraints|count]"@,
        ),
        subcommands: seq![
            presents("labels"@, "List all node labels"@, "lowmain schema labels"@),
            presents("types"@, "List all relationship types"@, "lowmain schema types"@),
            presents("indexes"@, "List all indexes"@, "lowmain schema indexes"@),
            presents("constraints"@, "List all constraints"@, "lowmain schema constraints"@),
            presents("count"@, "Count nodes and relationships"@, "lowmain schema count"@),
        ],
    }
}

/// The schema commands: the group and its five lists.
pub fn presentation() -> (group: CommandGroup)
    ensures
        group@ == schema_commands(),
{
    let mut subcommands: Vec<CommandSpec> = Vec::new();
    subcommands.push(CommandSpec::new("labels", "List all node labels", "lowmain schema labels"));
    subcommands.push(
        CommandSpec::new("types", "List all relationship types", "lowmain schema types"),
    );
    subcommands.push(CommandSpec::new("indexes", "List all indexes", "lowmain schema indexes"));
    subcommands.push(
        CommandSpec::new("constraints", "List all constraints", "lowmain schema constraints"),
    );
    subcommands.push(
        CommandSpec::new("count", "Count nodes and relationships", "lowmain schema count"),
    );
    assert(specs_model(subcommands@) =~= schema_commands().subcommands);
    CommandGroup {
        command: CommandSpec::new(
            "schema",
            "Introspect database structure",
            "lowmain schema [labels|types|indexes|constraints|count]",
        ),
        subcommands,
    }
}

} // verus!
