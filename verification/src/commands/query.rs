//! The raw query: a text that the caller wrote, run to read or to write.

use crate::actions::{
    actions_model, literal_action, required_bare_param, ActionModel, ActionParam, CommandOutput,
    NextAction, OutputModel,
};
use crate::commands::{
    arg_of, invalid, invalid_params, limit_of, limit_or_default, not_configured, presents,
    properties_of, read_properties, CommandSpec, CommandSpecModel, Plan,
};
use crate::connection::{connection_config, password_of, resolves_to, ConnectionSources};
use crate::convert::{document_json, row_to_json};
use crate::driver::row_document_of;
use crate::cypher::{compile_raw_query, raw_query, QueryModel};
use crate::error::{AppError, ErrorModel};
use crate::json::{field, fields_of, models_of, JsonModel, JsonValue};
use vstd::prelude::*;
use vstd::string::*;

verus! {

/// The plan of a raw query: what to run, how many rows to collect at most,
/// and whether the query is run to write.
#[derive(Debug, PartialEq)]
pub struct QueryPlan {
    pub plan: Plan,
    pub limit: usize,
    pub write: bool,
}

/// What the arguments of a raw query compile to. The text is asked for
/// first, then the password, then the parameters are read.
pub open spec fn query_plan_of(
    cypher: Option<Seq<char>>,
    params: Option<Seq<char>>,
    sources: ConnectionSources,
) -> Result<QueryModel, ErrorModel> {
    if cypher is None {
        Err(invalid("Missing Cypher query. Usage: lowmain query \"MATCH (n) RETURN n\""@))
    } else if password_of(sources) is None {
        Err(not_configured())
    } else {
        match params {
            None => Ok(raw_query(cypher->0, None)),
            Some(text) => match properties_of(text, "Invalid --params JSON: "@) {
                Err(e) => Err(e),
                Ok(entries) => Ok(raw_query(cypher->0, Some(entries))),
            },
        }
    }
}

/// Plans a raw query.
pub fn query_plan(
    cypher: Option<&str>,
    params: Option<&str>,
    limit: Option<&str>,
    write: bool,
    sources: &ConnectionSources,
) -> (planned: Result<QueryPlan, AppError>)
    ensures
        match planned {
            Ok(p) => {
                &&& query_plan_of(arg_of(cypher), arg_of(params), *sources) == Ok::<
                    QueryModel,
                    ErrorModel,
                >(p.plan.query@)
                &&& resolves_to(*sources, p.plan.config)
                &&& p.limit == limit_of(arg_of(limit))
                &&& p.write == write
            },
            Err(e) => query_plan_of(arg_of(cypher), arg_of(params), *sources) == Err::<
                QueryModel,
                ErrorModel,
            >(e@),
        },
{
    let cypher = match cypher {
        Some(cypher) => cypher,
        None => {
            return Err(
                invalid_params("Missing Cypher query. Usage: lowmain query \"MATCH (n) RETURN n\""),
            );
        },
    };
    let limit = limit_or_default(limit);
    let config = match connection_config(sources) {
        Ok(config) => config,
        Err(e) => {
            return Err(e);
        },
    };
    let entries = match params {
        None => None,
        Some(text) => match read_properties(text, "Invalid --params JSON: ") {
            Ok(entries) => Some(entries),
            Err(e) => {
                return Err(e);
            },
        },
    };
    let query = compile_raw_query(cypher, entries);
    Ok(QueryPlan { plan: Plan { config, query }, limit, write })
}

/// Whether a read that has collected `collected` rows under a limit takes
/// one more. A caller that streams the rows asks this before it keeps a row,
/// and stops reading at the first `false`.
pub fn keep_collecting(collected: usize, limit: usize) -> (more: bool)
    ensures
        more == (collected < limit),
{
    collected < limit
}

/// The suggestion to run another query; the caller adds the text.
pub open spec fn another_query_suggestion() -> ActionModel {
    ActionModel {
        command: "lowmain query"@,
        description: "Run another query"@,
        params: seq![("cypher"@, required_bare_param())],
    }
}

/// The answer to a query that was run to write. It says that the query was
/// run and nothing of any row.
pub open spec fn write_output_of(cypher: Seq<char>) -> OutputModel {
    OutputModel {
        data: JsonModel::Object(
            seq![
                ("executed"@, JsonModel::Bool(true)),
                ("cypher"@, JsonModel::String(cypher)),
                ("mode"@, JsonModel::String("write"@)),
            ],
        ),
        next_actions: seq![
            literal_action("lowmain schema"@, "Check schema after mutation"@),
            another_query_suggestion(),
        ],
    }
}

/// The answer to a query that was run to read: the rows that were
/// collected, their number, the limit, and whether the number reached the
/// limit. That it did does not show that the store had more rows.
pub open spec fn read_output_of(
    cypher: Seq<char>,
    documents: Seq<JsonModel>,
    limit: usize,
) -> OutputModel {
    OutputModel {
        data: JsonModel::Object(
            seq![
                ("cypher"@, JsonModel::String(cypher)),
                ("rows"@, JsonModel::Array(documents)),
                ("count"@, JsonModel::Unsigned(documents.len() as u64)),
                ("truncated"@, JsonModel::Bool(documents.len() >= limit)),
                ("limit"@, JsonModel::Unsigned(limit as u64)),
            ],
        ),
        next_actions: seq![
            another_query_suggestion(),
            literal_action("lowmain schema"@, "Explore database structure"@),
        ],
    }
}

/// The suggestion to run another query.
fn another_query_action() -> (action: NextAction)
    ensures
        action@ == another_query_suggestion(),
{
    let action = NextAction::fixed("lowmain query", "Run another query").with_param(
        "cypher",
        ActionParam::required_bare(),
    );
    assert(action@.params =~= another_query_suggestion().params);
    action
}

/// Answers a query that was run to write.
pub fn write_output(cypher: &str) -> (output: CommandOutput)
    ensures
        output@ == write_output_of(cypher@),
{
    let mut actions: Vec<NextAction> = Vec::new();
    actions.push(NextAction::fixed("lowmain schema", "Check schema after mutation"));
    actions.push(another_query_action());
    assert(actions_model(actions@) =~= write_output_of(cypher@).next_actions);
    let mut fields: Vec<(String, JsonValue)> = Vec::new();
    fields.push(field("executed", JsonValue::Bool(true)));
    fields.push(field("cypher", JsonValue::string(cypher)));
    fields.push(field("mode", JsonValue::string("write")));
    assert(fields_of(fields@) =~= seq![
        ("executed"@, JsonModel::Bool(true)),
        ("cypher"@, JsonModel::String(cypher@)),
        ("mode"@, JsonModel::String("write"@)),
    ]);
    CommandOutput { data: JsonValue::object(fields), next_actions: actions }
}

/// Answers a query that was run to read, from the documents of the rows
/// that were collected.
pub fn read_output(cypher: &str, documents: Vec<JsonValue>, limit: usize) -> (output:
    CommandOutput)
    ensures
        output@ == read_output_of(cypher@, models_of(documents@), limit),
{
    let count = documents.len();
    let mut actions: Vec<NextAction> = Vec::new();
    actions.push(another_query_action());
    actions.push(NextAction::fixed("lowmain schema", "Explore database structure"));
    assert(actions_model(actions@) =~= read_output_of(
        cypher@,
        models_of(documents@),
        limit,
    ).next_actions);
    let ghost given = documents@;
    let mut fields: Vec<(String, JsonValue)> = Vec::new();
    fields.push(field("cypher", JsonValue::string(cypher)));
    fields.push(field("rows", JsonValue::array(documents)));
    fields.push(field("count", JsonValue::Unsigned(count as u64)));
    fields.push(field("truncated", JsonValue::Bool(count >= limit)));
    fields.push(field("limit", JsonValue::Unsigned(limit as u64)));
    assert(fields_of(fields@) =~= seq![
        ("cypher"@, JsonModel::String(cypher@)),
        ("rows"@, JsonModel::Array(models_of(given))),
        ("count"@, JsonModel::Unsigned(given.len() as u64)),
        ("truncated"@, JsonModel::Bool(given.len() >= limit)),
        ("limit"@, JsonModel::Unsigned(limit as u64)),
    ]);
    CommandOutput { data: JsonValue::object(fields), next_actions: actions }
}

/// The number of rows that a read keeps of `available` rows under a limit.
pub open spec fn collected_count(available: nat, limit: usize) -> nat {
    if available < limit {
        available
    } else {
        limit as nat
    }
}

/// The documents of the first `count` rows: for each row what it decodes to
/// as a whole, or null.
pub open spec fn row_documents(rows: Seq<neo4rs::Row>, count: nat) -> Seq<JsonModel> {
    Seq::new(count, |i: int| document_json(row_document_of(rows[i])))
}

/// The documents of the first rows, no more of them than the limit allows.
pub fn collect_documents(rows: &Vec<neo4rs::Row>, limit: usize) -> (documents: Vec<JsonValue>)
    ensures
        models_of(documents@) == row_documents(rows@, collected_count(rows@.len(), limit)),
{
    let mut documents: Vec<JsonValue> = Vec::new();
    let mut i: usize = 0;
    while i < rows.len() && keep_collecting(i, limit)
        invariant
            i <= rows@.len(),
            i <= limit,
            documents@.len() == i,
            forall|j: int|
                0 <= j < documents@.len() ==> (#[trigger] documents@[j])@ == document_json(
                    row_document_of(rows@[j]),
                ),
        decreases rows@.len() - i,
    {
        documents.push(row_to_json(&rows[i]));
        i = i + 1;
    }
    assert(models_of(documents@) =~= row_documents(
        rows@,
        collected_count(rows@.len(), limit),
    ));
    documents
}

/// Answers a query that was run to read, from the rows that the store
/// returned. Rows beyond the limit are left out.
pub fn read_response(plan: &QueryPlan, rows: &Vec<neo4rs::Row>) -> (output: CommandOutput)
    ensures
        output@ == read_output_of(
            plan.plan.query.text@,
            row_documents(rows@, collected_count(rows@.len(), plan.limit)),
            plan.limit,
        ),
{
    let documents = collect_documents(rows, plan.limit);
    read_output(plan.plan.query.text.as_str(), documents, plan.limit)
}

/// How the store is called for a raw query: to run it without collecting a
/// row, or to execute it and collect its rows.
#[derive(Clone, Copy, Debug, PartialEq, Eq, Structural)]
pub enum StoreCall {
    Run,
    Execute,
}

/// How the store is called for a plan: a query that is run to write is run,
/// and no row of it is collected; any other is executed.
pub fn store_call(plan: &QueryPlan) -> (call: StoreCall)
    ensures
        call == (if plan.write {
            StoreCall::Run
        } else {
            StoreCall::Execute
        }),
{
    if plan.write {
        StoreCall::Run
    } else {
        StoreCall::Execute
    }
}

/// What a raw query that the store accepted answers. Run to write, it
/// answers that it was executed, whatever the limit is and whatever rows
/// there are; run to read, it answers with the rows up to the limit.
pub open spec fn query_output_of(
    cypher: Seq<char>,
    write: bool,
    limit: usize,
    rows: Seq<neo4rs::Row>,
) -> OutputModel {
    if write {
        write_output_of(cypher)
    } else {
        read_output_of(cypher, row_documents(rows, collected_count(rows.len(), limit)), limit)
    }
}

/// Answers a raw query that the store accepted, from the rows that the store
/// returned; there are none for a query that was run to write.
pub fn query_response(plan: &QueryPlan, rows: &Vec<neo4rs::Row>) -> (output: CommandOutput)
    ensures
        output@ == query_output_of(plan.plan.query.text@, plan.write, plan.limit, rows@),
        plan.write ==> output@ == write_output_of(plan.plan.query.text@),
{
    if plan.write {
        write_output(plan.plan.query.text.as_str())
    } else {
        read_response(plan, rows)
    }
}

/// The answer to a write has three fields: that the query was executed, its
/// text, and the mode. It has none for rows, their number, the limit or
/// truncation, and neither the limit nor any row changes it.
pub proof fn law_write_answer_is_fixed(
    cypher: Seq<char>,
    first_limit: usize,
    second_limit: usize,
    first_rows: Seq<neo4rs::Row>,
    second_rows: Seq<neo4rs::Row>,
)
    ensures
        query_output_of(cypher, true, first_limit, first_rows) == query_output_of(
            cypher,
            true,
            second_limit,
            second_rows,
        ),
        query_output_of(cypher, true, first_limit, first_rows).data == JsonModel::Object(
            seq![
                ("executed"@, JsonModel::Bool(true)),
                ("cypher"@, JsonModel::String(cypher)),
                ("mode"@, JsonModel::String("write"@)),
            ],
        ),
{
}

/// The answer to a write has no field that speaks of truncation.
pub proof fn law_write_answer_has_no_truncation(cypher: Seq<char>)
    ensures
        write_output_of(cypher).data matches JsonModel::Object(fields) && forall|i: int|
            0 <= i < fields.len() ==> (#[trigger] fields[i]).0 != "truncated"@,
{
    reveal_strlit("truncated");
    reveal_strlit("executed");
    reveal_strlit("cypher");
    reveal_strlit("mode");
    let fields = write_output_of(cypher).data->Object_0;
    assert("truncated"@.len() == 9);
    assert("executed"@.len() == 8);
    assert("cypher"@.len() == 6);
    assert("mode"@.len() == 4);
    assert forall|i: int| 0 <= i < fields.len() implies (#[trigger] fields[i]).0
        != "truncated"@ by {
        if i == 0 {
            assert(fields[0].0 == "executed"@);
        } else if i == 1 {
            assert(fields[1].0 == "cypher"@);
        } else {
            assert(fields[2].0 == "mode"@);
        }
    }
}

/// A read that collected as many rows as its limit allows says so, and one
/// that collected fewer says that it did not.
pub proof fn law_read_answer_marks_truncation(
    cypher: Seq<char>,
    documents: Seq<JsonModel>,
    limit: usize,
)
    ensures
        read_output_of(cypher, documents, limit).data matches JsonModel::Object(fields)
            && fields[3] == ("truncated"@, JsonModel::Bool(documents.len() >= limit)),
{
}

/// The raw query command as it presents itself.
pub open spec fn query_command() -> CommandSpecModel {
    presents(
        "query"@,
        "Execute a raw Cypher query"@,
        "lowmain query <cypher> [--params=<json>] [--limit=<n>] [--write]"@,
    )
}

/// The raw query command.
pub fn presentation() -> (spec: CommandSpec)
    ensures
        spec@ == query_command(),
{
    CommandSpec::new(
        "query",
        "Execute a raw Cypher query",
        "lowmain query <cypher> [--params=<json>] [--limit=<n>] [--write]",
    )
}

} // verus!
