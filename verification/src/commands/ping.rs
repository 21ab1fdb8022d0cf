//! The connectivity check.

use crate::actions::{
    actions_model, literal_action, required_param, ActionModel, ActionParam, CommandOutput,
    NextAction, OutputModel,
};
use crate::commands::schema::{parameterless, ping_text};
use crate::commands::{not_configured, presents, CommandSpec, CommandSpecModel, Plan};
use crate::connection::{
    connection_config, connection_info, default_database, default_uri, password_of, resolves_to,
    setting_or, ConnectionSources,
};
use crate::cypher::fixed_query;
use crate::error::AppError;
use crate::json::{field, fields_of, JsonModel, JsonValue};
use vstd::prelude::*;
use vstd::string::*;

verus! {

/// The plan of a connectivity check, with the address and the database that
/// the answer will show.
#[derive(Debug, PartialEq)]
pub struct PingPlan {
    pub plan: Plan,
    pub uri: String,
    pub database: String,
}

/// Plans a connectivity check. It fails if and only if no source gives a
/// password.
pub fn ping_plan(sources: &ConnectionSources) -> (planned: Result<PingPlan, AppError>)
    ensures
        match planned {
            Ok(p) => {
                &&& resolves_to(*sources, p.plan.config)
                &&& p.plan.query@ == parameterless(ping_text())
                &&& p.uri@ == setting_or(sources.uri, default_uri())
                &&& p.database@ == setting_or(sources.database, default_database())
            },
            Err(e) => password_of(*sources) is None && e@ == not_configured(),
        },
{
    let config = match connection_config(sources) {
        Ok(config) => config,
        Err(e) => {
            return Err(e);
        },
    };
    let (uri, database) = connection_info(sources);
    Ok(PingPlan { plan: Plan { config, query: fixed_query("RETURN 1 AS ok") }, uri, database })
}

/// The answer to a connectivity check. It has no entity to speak of, and so
/// its suggestions are the general ones.
pub open spec fn ping_output_of(uri: Seq<char>, database: Seq<char>) -> OutputModel {
    OutputModel {
        data: JsonModel::Object(
            seq![
                ("connected"@, JsonModel::Bool(true)),
                ("uri"@, JsonModel::String(uri)),
                ("db"@, JsonModel::String(database)),
            ],
        ),
        next_actions: seq![
            literal_action("lowmain schema"@, "Explore database structure"@),
            ActionModel {
                command: "lowmain query"@,
                description: "Execute a Cypher query"@,
                params: seq![("cypher"@, required_param("Cypher query to run"@))],
            },
            ActionModel {
                command: "lowmain node find"@,
                description: "Find nodes by label"@,
                params: seq![("--label"@, required_param("Node label to search"@))],
            },
        ],
    }
}

/// Answers a connectivity check that the store replied to.
pub fn ping_output(uri: &str, database: &str) -> (output: CommandOutput)
    ensures
        output@ == ping_output_of(uri@, database@),
{
    let mut actions: Vec<NextAction> = Vec::new();
    actions.push(NextAction::fixed("lowmain schema", "Explore database structure"));
    let query = NextAction::fixed("lowmain query", "Execute a Cypher query").with_param(
        "cypher",
        ActionParam::required("Cypher query to run"),
    );
    assert(query@.params =~= seq![("cypher"@, required_param("Cypher query to run"@))]);
    actions.push(query);
    let find = NextAction::fixed("lowmain node find", "Find nodes by label").with_param(
        "--label",
        ActionParam::required("Node label to search"),
    );
    assert(find@.params =~= seq![("--label"@, required_param("Node label to search"@))]);
    actions.push(find);
    assert(actions_model(actions@) =~= ping_output_of(uri@, database@).next_actions);
    let mut fields: Vec<(String, JsonValue)> = Vec::new();
    fields.push(field("connected", JsonValue::Bool(true)));
    fields.push(field("uri", JsonValue::string(uri)));
    fields.push(field("db", JsonValue::string(database)));
    assert(fields_of(fields@) =~= seq![
        ("connected"@, JsonModel::Bool(true)),
        ("uri"@, JsonModel::String(uri@)),
        ("db"@, JsonModel::String(database@)),
    ]);
    CommandOutput { data: JsonValue::object(fields), next_actions: actions }
}

/// Answers the connectivity check of a plan.
pub fn ping_response(plan: &PingPlan) -> (output: CommandOutput)
    ensures
        output@ == ping_output_of(plan.uri@, plan.database@),
{
    ping_output(plan.uri.as_str(), plan.database.as_str())
}

/// The connectivity check as it presents itself.
pub open spec fn ping_command() -> CommandSpecModel {
    presents(
        "ping"@,
        "Test Neo4j connection health"@,
        "lowmain ping [--uri=<uri>] [--user=<user>] [--password=<pw>] [--db=<db>]"@,
    )
}

/// The connectivity check.
pub fn presentation() -> (spec: CommandSpec)
    ensures
        spec@ == ping_command(),
{
    CommandSpec::new(
        "ping",
        "Test Neo4j connection health",
        "lowmain ping [--uri=<uri>] [--user=<user>] [--password=<pw>] [--db=<db>]",
    )
}

} // verus!
