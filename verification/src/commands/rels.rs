//! The relationship operations: find, create, delete.

use crate::actions::{
    actions_model, literal_action, required_param, ActionModel, ActionParam, CommandOutput,
    NextAction, OutputModel,
};
use crate::commands::nodes::{
    deleted_count, fetch_deleted, get_action, get_suggestion, reported_deleted,
};
use crate::commands::{
    arg_of, endpoint, endpoint_of, id_of, invalid, invalid_params, limit_of, limit_or_default,
    not_configured, parse_id, presents, properties_of, query_failed, read_properties,
    relationship_not_found, specs_model, CommandGroup, CommandGroupModel, CommandSpec, Plan,
};
use crate::connection::{connection_config, password_of, resolves_to, ConnectionSources};
use crate::convert::{canonical_of_relationship, canonical_relationship, CanonicalRelationship};
use crate::cypher::{
    compile_create_relationship, compile_delete_relationship, compile_find_relationships,
    create_relationship_query, delete_relationship_query, find_relationships_query, QueryModel,
};
use crate::driver::{row_relation, row_relation_of};
use crate::error::{AppError, ErrorModel};
use crate::json::{field, fields_of, models_of, JsonModel, JsonValue, JsonEntryModel};
use crate::order::reversed;
use crate::text::{join, parsed_i64, signed_decimal, signed_text};
use vstd::prelude::*;
use vstd::string::*;

verus! {

/// The plan of the creation of a relationship, with the ids of its two ends.
#[derive(Debug, PartialEq)]
pub struct RelatePlan {
    pub plan: Plan,
    pub from: i64,
    pub to: i64,
}

/// The plan of the deletion of a relationship.
#[derive(Debug, PartialEq)]
pub struct UnrelatePlan {
    pub plan: Plan,
    pub id: i64,
    pub id_text: String,
}

/// Why a creation that returned nothing failed: the store makes no
/// relationship where one of the two nodes is missing.
pub open spec fn nothing_created() -> Seq<char> {
    "CREATE did not return a relationship â€” check that both nodes exist"@
}

/// What the arguments of a search for relationships compile to. An end
/// point that is no numeral is passed over, and so the search fails only for
/// want of a password.
pub open spec fn find_plan_of(
    from: Option<Seq<char>>,
    to: Option<Seq<char>>,
    rel_type: Option<Seq<char>>,
    limit: Option<Seq<char>>,
    sources: ConnectionSources,
) -> Result<QueryModel, ErrorModel> {
    if password_of(sources) is None {
        Err(not_configured())
    } else {
        Ok(
            find_relationships_query(
                endpoint_of(from),
                endpoint_of(to),
                rel_type,
                limit_of(limit) as nat,
            ),
        )
    }
}

/// The entries of an optional property object, or why its text is none.
pub open spec fn optional_properties_of(props: Option<Seq<char>>) -> Result<
    Option<Seq<(Seq<char>, JsonEntryModel)>>,
    ErrorModel,
> {
    match props {
        None => Ok(None),
        Some(text) => match properties_of(text, "Invalid --props JSON: "@) {
            Ok(entries) => Ok(Some(entries)),
            Err(e) => Err(e),
        },
    }
}

/// What the arguments of the creation of a relationship compile to. The
/// three arguments are asked for first, then the two ids are read, then the
/// password is asked for, then the properties are read.
pub open spec fn create_plan_of(
    from: Option<Seq<char>>,
    to: Option<Seq<char>>,
    rel_type: Option<Seq<char>>,
    props: Option<Seq<char>>,
    sources: ConnectionSources,
) -> Result<QueryModel, ErrorModel> {
    if from is None {
        Err(invalid("Missing --from. Usage: lowmain rel create --from=1 --to=2 --type=KNOWS"@))
    } else if to is None {
        Err(invalid("Missing --to node ID"@))
    } else if rel_type is None {
        Err(invalid("Missing --type relationship type"@))
    } else {
        match id_of(from, Seq::empty(), "Invalid --from ID: "@) {
            Err(e) => Err(e),
            Ok(source) => match id_of(to, Seq::empty(), "Invalid --to ID: "@) {
                Err(e) => Err(e),
                Ok(target) => if password_of(sources) is None {
                    Err(not_configured())
                } else {
                    match optional_properties_of(props) {
                        Err(e) => Err(e),
                        Ok(entries) => Ok(
                            create_relationship_query(source, target, rel_type->0, entries),
                        ),
                    }
                },
            },
        }
    }
}

/// What the arguments of the deletion of a relationship compile to.
pub open spec fn delete_plan_of(id: Option<Seq<char>>, sources: ConnectionSources) -> Result<
    QueryModel,
    ErrorModel,
> {
    match id_of(
        id,
        "Missing relationship ID. Usage: lowmain rel delete <id>"@,
        "Invalid relationship ID: "@,
    ) {
        Err(e) => Err(e),
        Ok(v) => if password_of(sources) is None {
            Err(not_configured())
        } else {
            Ok(delete_relationship_query(v))
        },
    }
}

/// Plans a search for relationships.
pub fn find_plan(
    from: Option<&str>,
    to: Option<&str>,
    rel_type: Option<&str>,
    limit: Option<&str>,
    sources: &ConnectionSources,
) -> (planned: Result<Plan, AppError>)
    ensures
        match planned {
            Ok(p) => {
                &&& find_plan_of(
                    arg_of(from),
                    arg_of(to),
                    arg_of(rel_type),
                    arg_of(limit),
                    *sources,
                ) == Ok::<QueryModel, ErrorModel>(p.query@)
                &&& resolves_to(*sources, p.config)
            },
            Err(e) => find_plan_of(
                arg_of(from),
                arg_of(to),
                arg_of(rel_type),
                arg_of(limit),
                *sources,
            ) == Err::<QueryModel, ErrorModel>(e@),
        },
{
    let limit = limit_or_default(limit);
    let source = endpoint(from);
    let target = endpoint(to);
    let config = match connection_config(sources) {
        Ok(config) => config,
        Err(e) => {
            return Err(e);
        },
    };
    let query = compile_find_relationships(source, target, rel_type, limit);
    Ok(Plan { config, query })
}

/// Plans the creation of a relationship.
pub fn create_plan(
    from: Option<&str>,
    to: Option<&str>,
    rel_type: Option<&str>,
    props: Option<&str>,
    sources: &ConnectionSources,
) -> (planned: Result<RelatePlan, AppError>)
    ensures
        match planned {
            Ok(p) => {
                &&& create_plan_of(
                    arg_of(from),
                    arg_of(to),
                    arg_of(rel_type),
                    arg_of(props),
                    *sources,
                ) == Ok::<QueryModel, ErrorModel>(p.plan.query@)
                &&& resolves_to(*sources, p.plan.config)
                &&& endpoint_of(arg_of(from)) == Some(p.from)
                &&& endpoint_of(arg_of(to)) == Some(p.to)
            },
            Err(e) => create_plan_of(
                arg_of(from),
                arg_of(to),
                arg_of(rel_type),
                arg_of(props),
                *sources,
            ) == Err::<QueryModel, ErrorModel>(e@),
        },
{
    if from.is_none() {
        return Err(
            invalid_params("Missing --from. Usage: lowmain rel create --from=1 --to=2 --type=KNOWS"),
        );
    }
    if to.is_none() {
        return Err(invalid_params("Missing --to node ID"));
    }
    let rel_type = match rel_type {
        Some(rel_type) => rel_type,
        None => {
            return Err(invalid_params("Missing --type relationship type"));
        },
    };
    let source = match parse_id(from, "", "Invalid --from ID: ") {
        Ok(id) => id,
        Err(e) => {
            return Err(e);
        },
    };
    let target = match parse_id(to, "", "Invalid --to ID: ") {
        Ok(id) => id,
        Err(e) => {
            return Err(e);
        },
    };
    let config = match connection_config(sources) {
        Ok(config) => config,
        Err(e) => {
            return Err(e);
        },
    };
    let entries = match props {
        None => None,
        Some(text) => match read_properties(text, "Invalid --props JSON: ") {
            Ok(entries) => Some(entries),
            Err(e) => {
                return Err(e);
            },
        },
    };
    proof {
        reveal_strlit("");
        assert(""@ =~= Seq::<char>::empty());
    }
    let query = compile_create_relationship(source, target, rel_type, entries);
    Ok(RelatePlan { plan: Plan { config, query }, from: source, to: target })
}

/// Plans the deletion of a relationship.
pub fn delete_plan(id: Option<&str>, sources: &ConnectionSources) -> (planned: Result<
    UnrelatePlan,
    AppError,
>)
    ensures
        match planned {
            Ok(p) => {
                &&& delete_plan_of(arg_of(id), *sources) == Ok::<QueryModel, ErrorModel>(
                    p.plan.query@,
                )
                &&& resolves_to(*sources, p.plan.config)
                &&& Some(p.id_text@) == arg_of(id)
                &&& parsed_i64(p.id_text@) == Some(p.id)
            },
            Err(e) => delete_plan_of(arg_of(id), *sources) == Err::<QueryModel, ErrorModel>(e@),
        },
{
    let value = match parse_id(
        id,
        "Missing relationship ID. Usage: lowmain rel delete <id>",
        "Invalid relationship ID: ",
    ) {
        Ok(value) => value,
        Err(e) => {
            return Err(e);
        },
    };
    let config = match connection_config(sources) {
        Ok(config) => config,
        Err(e) => {
            return Err(e);
        },
    };
    let query = compile_delete_relationship(value);
    Ok(
        UnrelatePlan {
            plan: Plan { config, query },
            id: value,
            id_text: String::from_str(id.unwrap()),
        },
    )
}

/// The JSON objects of the relationships, in order.
pub open spec fn relationship_objects(relationships: Seq<CanonicalRelationship>) -> Seq<JsonModel> {
    Seq::new(relationships.len(), |i: int| relationships[i].json())
}

/// The suggestion to create a relationship; the caller adds both ends and
/// the type.
pub open spec fn relate_anew_suggestion() -> ActionModel {
    ActionModel {
        command: "lowmain rel create"@,
        description: "Create a relationship"@,
        params: seq![
            ("--from"@, required_param("Source node ID"@)),
            ("--to"@, required_param("Target node ID"@)),
            ("--type"@, required_param("Relationship type"@)),
        ],
    }
}

/// The suggestion to list the relationship types.
pub open spec fn types_suggestion() -> ActionModel {
    literal_action("lowmain schema types"@, "View relationship types"@)
}

/// The answer to a search for relationships. Its suggestions do not depend
/// on what was found.
pub open spec fn find_output_of(relationships: Seq<CanonicalRelationship>) -> OutputModel {
    OutputModel {
        data: JsonModel::Object(
            seq![
                ("relationships"@, JsonModel::Array(relationship_objects(relationships))),
                ("count"@, JsonModel::Unsigned(relationships.len() as u64)),
            ],
        ),
        next_actions: seq![relate_anew_suggestion(), types_suggestion()],
    }
}

/// The answer to the creation of a relationship.
pub open spec fn create_output_of(
    from: i64,
    to: i64,
    relationship: CanonicalRelationship,
) -> OutputModel {
    OutputModel {
        data: JsonModel::Object(
            seq![("created"@, JsonModel::Bool(true)), ("relationship"@, relationship.json())],
        ),
        next_actions: seq![
            get_suggestion(from, "View source node"@),
            get_suggestion(to, "View target node"@),
            literal_action(
                "lowmain rel delete "@ + signed_decimal(relationship.id as int),
                "Delete this relationship"@,
            ),
        ],
    }
}

/// The answer to the deletion of a relationship.
pub open spec fn delete_output_of(id: i64) -> OutputModel {
    OutputModel {
        data: JsonModel::Object(
            seq![("deleted"@, JsonModel::Bool(true)), ("id"@, JsonModel::Integer(id))],
        ),
        next_actions: seq![
            literal_action("lowmain rel find"@, "Find relationships"@),
            types_suggestion(),
        ],
    }
}

/// The JSON objects of the relationships, in order.
fn relationships_to_json(relationships: Vec<CanonicalRelationship>) -> (objects: Vec<JsonValue>)
    ensures
        models_of(objects@) == relationship_objects(relationships@),
{
    let ghost given = relationships@;
    let n = relationships.len();
    let mut back = reversed(relationships);
    let mut objects: Vec<JsonValue> = Vec::new();
    while objects.len() < n
        invariant
            n == given.len(),
            objects@.len() <= n,
            back@.len() == n - objects@.len(),
            forall|j: int| 0 <= j < back@.len() ==> back@[j] == given[n - 1 - j],
            forall|j: int| 0 <= j < objects@.len() ==> (#[trigger] objects@[j])@ == given[j].json(),
        decreases n - objects@.len(),
    {
        let relationship = back.pop().unwrap();
        objects.push(relationship.to_json());
    }
    assert(models_of(objects@) =~= relationship_objects(given));
    objects
}

/// Answers a search for relationships.
pub fn find_output(relationships: Vec<CanonicalRelationship>) -> (output: CommandOutput)
    ensures
        output@ == find_output_of(relationships@),
{
    let count = relationships.len();
    let mut actions: Vec<NextAction> = Vec::new();
    let create = NextAction::fixed("lowmain rel create", "Create a relationship").with_param(
        "--from",
        ActionParam::required("Source node ID"),
    ).with_param("--to", ActionParam::required("Target node ID")).with_param(
        "--type",
        ActionParam::required("Relationship type"),
    );
    assert(create@.params =~= relate_anew_suggestion().params);
    actions.push(create);
    actions.push(NextAction::fixed("lowmain schema types", "View relationship types"));
    assert(actions_model(actions@) =~= find_output_of(relationships@).next_actions);
    let ghost given = relationships@;
    let objects = relationships_to_json(relationships);
    let mut fields: Vec<(String, JsonValue)> = Vec::new();
    fields.push(field("relationships", JsonValue::array(objects)));
    fields.push(field("count", JsonValue::Unsigned(count as u64)));
    assert(fields_of(fields@) =~= seq![
        ("relationships"@, JsonModel::Array(relationship_objects(given))),
        ("count"@, JsonModel::Unsigned(given.len() as u64)),
    ]);
    CommandOutput { data: JsonValue::object(fields), next_actions: actions }
}

/// Answers the creation of a relationship.
pub fn create_output(from: i64, to: i64, relationship: CanonicalRelationship) -> (output:
    CommandOutput)
    ensures
        output@ == create_output_of(from, to, relationship),
{
    let id = relationship.id;
    let mut actions: Vec<NextAction> = Vec::new();
    actions.push(get_action(from, String::from_str("View source node")));
    actions.push(get_action(to, String::from_str("View target node")));
    actions.push(
        NextAction::new(
            join("lowmain rel delete ", signed_text(id).as_str()),
            String::from_str("Delete this relationship"),
        ),
    );
    assert(actions_model(actions@) =~= create_output_of(from, to, relationship).next_actions);
    let mut fields: Vec<(String, JsonValue)> = Vec::new();
    fields.push(field("created", JsonValue::Bool(true)));
    fields.push(field("relationship", relationship.to_json()));
    assert(fields_of(fields@) =~= seq![
        ("created"@, JsonModel::Bool(true)),
        ("relationship"@, relationship.json()),
    ]);
    CommandOutput { data: JsonValue::object(fields), next_actions: actions }
}

/// Answers the deletion of a relationship.
pub fn delete_output(id: i64) -> (output: CommandOutput)
    ensures
        output@ == delete_output_of(id),
{
    let mut actions: Vec<NextAction> = Vec::new();
    actions.push(NextAction::fixed("lowmain rel find", "Find relationships"));
    actions.push(NextAction::fixed("lowmain schema types", "View relationship types"));
    assert(actions_model(actions@) =~= delete_output_of(id).next_actions);
    let mut fields: Vec<(String, JsonValue)> = Vec::new();
    fields.push(field("deleted", JsonValue::Bool(true)));
    fields.push(field("id", JsonValue::Integer(id)));
    assert(fields_of(fields@) =~= seq![
        ("deleted"@, JsonModel::Bool(true)),
        ("id"@, JsonModel::Integer(id)),
    ]);
    CommandOutput { data: JsonValue::object(fields), next_actions: actions }
}

/// What the creation of a relationship comes to, from what the store
/// returned. Nothing returned means that one of the two nodes is missing:
/// that is a failed query, and no search is made for which.
pub fn create_result(
    from: i64,
    to: i64,
    fetched: Option<Result<CanonicalRelationship, String>>,
) -> (result: Result<CommandOutput, AppError>)
    ensures
        match fetched {
            None => result is Err && result->Err_0@ == query_failed(nothing_created()),
            Some(Err(why)) => result is Err && result->Err_0@ == query_failed(why@),
            Some(Ok(relationship)) => result is Ok && result->Ok_0@ == create_output_of(
                from,
                to,
                relationship,
            ),
        },
{
    match fetched {
        None => Err(
            AppError::QueryFailed {
                reason: String::from_str(
                    "CREATE did not return a relationship â€” check that both nodes exist",
                ),
            },
        ),
        Some(Err(why)) => Err(AppError::QueryFailed { reason: why }),
        Some(Ok(relationship)) => Ok(create_output(from, to, relationship)),
    }
}

/// What the deletion of a relationship comes to, from the number that the
/// store reported: it succeeds if and only if that number is not zero.
pub fn delete_result(id_text: &str, id: i64, reported: Option<Option<i64>>) -> (result: Result<
    CommandOutput,
    AppError,
>)
    ensures
        deleted_count(reported) == 0 ==> result is Err && result->Err_0@
            == relationship_not_found(id_text@),
        deleted_count(reported) != 0 ==> result is Ok && result->Ok_0@ == delete_output_of(id),
{
    let deleted = match reported {
        Some(Some(n)) => n,
        _ => 0,
    };
    if deleted == 0 {
        Err(AppError::RelNotFound { id: String::from_str(id_text) })
    } else {
        Ok(delete_output(id))
    }
}

/// What the first row of an answer gives as the relationship in its column
/// `r`: nothing where there is no row, else the canonical form of a reading
/// of the relationship, or why the column holds no relationship.
pub open spec fn is_fetched_relationship(
    row: Option<&neo4rs::Row>,
    fetched: Option<Result<CanonicalRelationship, String>>,
) -> bool {
    match row {
        None => fetched is None,
        Some(r) => match row_relation_of(*r, "r"@) {
            Ok(relation) => fetched matches Some(Ok(canonical)) && canonical_of_relationship(
                relation,
                canonical,
            ),
            Err(why) => fetched matches Some(Err(text)) && text@ == why,
        },
    }
}

/// `relationships` are the canonical forms of readings of the relationships
/// that the rows hold in their column `r`, in the order of the rows; a row
/// that holds no relationship there has none.
pub open spec fn are_collected_relationships(
    rows: Seq<neo4rs::Row>,
    relationships: Seq<CanonicalRelationship>,
) -> bool
    decreases rows.len(),
{
    if rows.len() == 0 {
        relationships.len() == 0
    } else {
        match row_relation_of(rows.last(), "r"@) {
            Ok(relation) => relationships.len() > 0 && canonical_of_relationship(
                relation,
                relationships.last(),
            ) && are_collected_relationships(rows.drop_last(), relationships.drop_last()),
            Err(_) => are_collected_relationships(rows.drop_last(), relationships),
        }
    }
}

/// No more relationships are collected than there are rows.
pub proof fn lemma_collected_relationships_are_bounded(
    rows: Seq<neo4rs::Row>,
    relationships: Seq<CanonicalRelationship>,
)
    requires
        are_collected_relationships(rows, relationships),
    ensures
        relationships.len() <= rows.len(),
    decreases rows.len(),
{
    if rows.len() > 0 {
        match row_relation_of(rows.last(), "r"@) {
            Ok(_) => lemma_collected_relationships_are_bounded(
                rows.drop_last(),
                relationships.drop_last(),
            ),
            Err(_) => lemma_collected_relationships_are_bounded(rows.drop_last(), relationships),
        }
    }
}

/// Reads the relationship in the column `r` of the first row, if there is a
/// row.
pub fn fetch_relationship(row: Option<&neo4rs::Row>) -> (fetched: Option<
    Result<CanonicalRelationship, String>,
>)
    ensures
        is_fetched_relationship(row, fetched),
{
    match row {
        None => None,
        Some(row) => match row_relation(row, "r") {
            Ok(relation) => Some(Ok(canonical_relationship(&relation))),
            Err(why) => Some(Err(why)),
        },
    }
}

/// The relationships in the column `r` of the rows, in order. A row that
/// holds no relationship there is passed over.
pub fn collect_relationships(rows: &Vec<neo4rs::Row>) -> (relationships: Vec<
    CanonicalRelationship,
>)
    ensures
        are_collected_relationships(rows@, relationships@),
        relationships@.len() <= rows@.len(),
{
    let mut relationships: Vec<CanonicalRelationship> = Vec::new();
    let mut i: usize = 0;
    assert(rows@.take(0).len() == 0);
    while i < rows.len()
        invariant
            i <= rows@.len(),
            are_collected_relationships(rows@.take(i as int), relationships@),
        decreases rows@.len() - i,
    {
        let ghost seen = rows@.take(i as int);
        let ghost longer = rows@.take(i + 1);
        let ghost before = relationships@;
        assert(longer.drop_last() =~= seen);
        assert(longer.last() == rows@[i as int]);
        match row_relation(&rows[i], "r") {
            Ok(relation) => {
                relationships.push(canonical_relationship(&relation));
                assert(relationships@.drop_last() =~= before);
            },
            Err(_) => {},
        }
        i = i + 1;
    }
    assert(rows@.take(i as int) =~= rows@);
    proof {
        lemma_collected_relationships_are_bounded(rows@, relationships@);
    }
    relationships
}

/// Answers a search for relationships from the rows that the store
/// returned: the answer of `find_output` for the relationships that the rows
/// hold.
pub fn find_response(rows: &Vec<neo4rs::Row>) -> (output: CommandOutput)
    ensures
        exists|relationships: Seq<CanonicalRelationship>| #[trigger]
            are_collected_relationships(rows@, relationships) && relationships.len()
                <= rows@.len() && output@ == find_output_of(relationships),
{
    let relationships = collect_relationships(rows);
    let ghost collected = relationships@;
    let output = find_output(relationships);
    assert(are_collected_relationships(rows@, collected));
    output
}

/// Answers the creation of a relationship from the first row that the store
/// returned: a failed query without a row or for a row that holds no
/// relationship, and else the answer for the canonical form of a reading of
/// the relationship.
pub fn create_response(plan: &RelatePlan, row: Option<&neo4rs::Row>) -> (result: Result<
    CommandOutput,
    AppError,
>)
    ensures
        match row {
            None => result is Err && result->Err_0@ == query_failed(nothing_created()),
            Some(r) => match row_relation_of(*r, "r"@) {
                Err(why) => result is Err && result->Err_0@ == query_failed(why),
                Ok(relation) => result is Ok && exists|canonical: CanonicalRelationship|
                    #[trigger] canonical_of_relationship(relation, canonical) && result->Ok_0@
                        == create_output_of(plan.from, plan.to, canonical),
            },
        },
{
    let fetched = fetch_relationship(row);
    let result = create_result(plan.from, plan.to, fetched);
    result
}

/// Answers the deletion of a relationship from the first row that the store
/// returned. It succeeds if and only if the row reports that something was
/// deleted, and so never without a row.
pub fn delete_response(plan: &UnrelatePlan, row: Option<&neo4rs::Row>) -> (result: Result<
    CommandOutput,
    AppError,
>)
    ensures
        deleted_count(reported_deleted(row)) == 0 ==> result is Err && result->Err_0@
            == relationship_not_found(plan.id_text@),
        deleted_count(reported_deleted(row)) != 0 ==> result is Ok && result->Ok_0@
            == delete_output_of(plan.id),
{
    delete_result(plan.id_text.as_str(), plan.id, fetch_deleted(row))
}

/// The relationship commands as they present themselves.
pub open spec fn relationship_commands() -> CommandGroupModel {
    CommandGroupModel {
        command: presents(
            "rel"@,
            "Relationship CRUD operations"@,
            "lowmain rel [find|create|delete]"@,
        ),
        subcommands: seq![
            presents(
                "find"@,
                "Find relationships by type and/or endpoints"@,
                "lowmain rel find [--from=<id>] [--to=<id>] [--type=<type>] [--limit=<n>]"@,
            ),
            presents(
                "create"@,
                "Create a relationship between two nodes"@,
                "lowmain rel create --from=<id> --to=<id> --type=<type> [--props=<json>]"@,
            ),
            presents("delete"@, "Delete a relationship by ID"@, "lowmain rel delete <id>"@),
        ],
    }
}

/// The relationship commands: the group and its three operations.
pub fn presentation() -> (group: CommandGroup)
    ensures
        group@ == relationship_commands(),
{
    let mut subcommands: Vec<CommandSpec> = Vec::new();
    subcommands.push(
        CommandSpec::new(
            "find",
            "Find relationships by type and/or endpoints",
            "lowmain rel find [--from=<id>] [--to=<id>] [--type=<type>] [--limit=<n>]",
        ),
    );
    subcommands.push(
        CommandSpec::new(
            "create",
            "Create a relationship between two nodes",
            "lowmain rel create --from=<id> --to=<id> --type=<type> [--props=<json>]",
        ),
    );
    subcommands.push(
        CommandSpec::new("delete", "Delete a relationship by ID", "lowmain rel delete <id>"),
    );
    assert(specs_model(subcommands@) =~= relationship_commands().subcommands);
    CommandGroup {
        command: CommandSpec::new(
            "rel",
            "Relationship CRUD operations",
            "lowmain rel [find|create|delete]",
        ),
        subcommands,
    }
}

} // verus!
