//! The node operations: find, get, create, update, delete.

use crate::actions::{
    actions_model, literal_action, required_param, ActionModel, ActionParam, CommandOutput,
    NextAction, OutputModel,
};
use crate::commands::{
    arg_of, id_of, invalid, invalid_params, limit_of, limit_or_default, node_not_found,
    not_configured, parse_id, presents, properties_of, query_failed, read_properties,
    specs_model, CommandGroup, CommandGroupModel, CommandSpec, Plan,
};
use crate::connection::{connection_config, password_of, resolves_to, ConnectionSources};
use crate::convert::{canonical_node, canonical_of_node, CanonicalNode};
use crate::cypher::{
    compile_create_node, compile_delete_node, compile_find_nodes, compile_get_node,
    compile_update_node, create_node_query, delete_node_query, find_nodes_query, get_node_query,
    update_node_query, QueryModel,
};
use crate::driver::{row_integer, row_integer_of, row_node, row_node_of};
use crate::error::{AppError, ErrorModel};
use crate::json::{field, fields_of, models_of, JsonModel, JsonValue};
use crate::order::reversed;
use crate::text::{
    enclose, first_index, join, parsed_i64, signed_decimal, signed_text, split_once,
};
use vstd::prelude::*;
use vstd::string::*;

verus! {

/// The most suggestions that an answer makes for the entities it found.
pub const MAX_ENTITY_SUGGESTIONS: usize = 5;

/// The plan of a search for nodes, and the label that was searched for.
#[derive(Debug, PartialEq)]
pub struct FindPlan {
    pub plan: Plan,
    pub label: String,
}

/// The plan of an operation on one node, with the id as it was parsed and as
/// it was given.
#[derive(Debug, PartialEq)]
pub struct NodePlan {
    pub plan: Plan,
    pub id: i64,
    pub id_text: String,
}

/// The plan of the creation of a node, and the label of the node.
#[derive(Debug, PartialEq)]
pub struct CreatePlan {
    pub plan: Plan,
    pub label: String,
}

/// The plan of the deletion of a node.
#[derive(Debug, PartialEq)]
pub struct DeletePlan {
    pub plan: Plan,
    pub id: i64,
    pub id_text: String,
    pub detach: bool,
}

/// The two sides of a filter `property=value`, split at its first `=`.
pub open spec fn filter_parts(filter: Option<Seq<char>>) -> Option<(Seq<char>, Seq<char>)> {
    match filter {
        Some(w) => Some(
            (
                w.subrange(0, first_index(w, '=')),
                w.subrange(first_index(w, '=') + 1, w.len() as int),
            ),
        ),
        None => None,
    }
}

/// What the arguments of a search for nodes compile to. The label is asked
/// for first, then the password, then a filter's `=`.
pub open spec fn find_plan_of(
    label: Option<Seq<char>>,
    filter: Option<Seq<char>>,
    limit: Option<Seq<char>>,
    sources: ConnectionSources,
) -> Result<QueryModel, ErrorModel> {
    if label is None {
        Err(invalid("Missing --label. Usage: lowmain node find --label=Person"@))
    } else if password_of(sources) is None {
        Err(not_configured())
    } else if filter is Some && first_index(filter->0, '=') == filter->0.len() {
        Err(invalid("Invalid --where format. Use prop=value"@))
    } else {
        Ok(find_nodes_query(label->0, filter_parts(filter), limit_of(limit) as nat))
    }
}

/// What the arguments of a read of one node compile to.
pub open spec fn get_plan_of(id: Option<Seq<char>>, sources: ConnectionSources) -> Result<
    QueryModel,
    ErrorModel,
> {
    match id_of(id, "Missing node ID. Usage: lowmain node get <id>"@, "Invalid node ID: "@) {
        Err(e) => Err(e),
        Ok(v) => if password_of(sources) is None {
            Err(not_configured())
        } else {
            Ok(get_node_query(v))
        },
    }
}

/// What the arguments of the creation of a node compile to.
pub open spec fn create_plan_of(
    label: Option<Seq<char>>,
    props: Option<Seq<char>>,
    sources: ConnectionSources,
) -> Result<QueryModel, ErrorModel> {
    if label is None {
        Err(
            invalid(
                "Missing --label. Usage: lowmain node create --label=Person --props='{\"name\":\"Alice\"}'"@,
            ),
        )
    } else if props is None {
        Err(invalid("Missing --props. Provide a JSON object of properties"@))
    } else {
        match properties_of(props->0, "Invalid --props JSON: "@) {
            Err(e) => Err(e),
            Ok(entries) => if password_of(sources) is None {
                Err(not_configured())
            } else {
                Ok(create_node_query(label->0, entries))
            },
        }
    }
}

/// What the arguments of the update of a node compile to.
pub open spec fn update_plan_of(
    id: Option<Seq<char>>,
    set: Option<Seq<char>>,
    sources: ConnectionSources,
) -> Result<QueryModel, ErrorModel> {
    match id_of(
        id,
        "Missing node ID. Usage: lowmain node update <id> --set='{\"name\":\"Bob\"}'"@,
        "Invalid node ID: "@,
    ) {
        Err(e) => Err(e),
        Ok(v) => if set is None {
            Err(invalid("Missing --set. Provide a JSON object of properties to update"@))
        } else {
            match properties_of(set->0, "Invalid --set JSON: "@) {
                Err(e) => Err(e),
                Ok(entries) => if password_of(sources) is None {
                    Err(not_configured())
                } else {
                    Ok(update_node_query(v, entries))
                },
            }
        },
    }
}

/// What the arguments of the deletion of a node compile to.
pub open spec fn delete_plan_of(
    id: Option<Seq<char>>,
    detach: bool,
    sources: ConnectionSources,
) -> Result<QueryModel, ErrorModel> {
    match id_of(id, "Missing node ID. Usage: lowmain node delete <id>"@, "Invalid node ID: "@) {
        Err(e) => Err(e),
        Ok(v) => if password_of(sources) is None {
            Err(not_configured())
        } else {
            Ok(delete_node_query(v, detach))
        },
    }
}

/// Plans a search for nodes.
pub fn find_plan(
    label: Option<&str>,
    filter: Option<&str>,
    limit: Option<&str>,
    sources: &ConnectionSources,
) -> (planned: Result<FindPlan, AppError>)
    ensures
        match planned {
            Ok(p) => {
                &&& find_plan_of(arg_of(label), arg_of(filter), arg_of(limit), *sources) == Ok::<
                    QueryModel,
                    ErrorModel,
                >(p.plan.query@)
                &&& resolves_to(*sources, p.plan.config)
                &&& Some(p.label@) == arg_of(label)
            },
            Err(e) => find_plan_of(arg_of(label), arg_of(filter), arg_of(limit), *sources) == Err::<
                QueryModel,
                ErrorModel,
            >(e@),
        },
{
    let label = match label {
        Some(label) => label,
        None => {
            return Err(invalid_params("Missing --label. Usage: lowmain node find --label=Person"));
        },
    };
    let limit = limit_or_default(limit);
    let config = match connection_config(sources) {
        Ok(config) => config,
        Err(e) => {
            return Err(e);
        },
    };
    let parts = match filter {
        Some(w) => match split_once(w, '=') {
            Some(parts) => Some(parts),
            None => {
                return Err(invalid_params("Invalid --where format. Use prop=value"));
            },
        },
        None => None,
    };
    let query = compile_find_nodes(label, parts, limit);
    Ok(FindPlan { plan: Plan { config, query }, label: String::from_str(label) })
}

/// Plans the read of one node.
pub fn get_plan(id: Option<&str>, sources: &ConnectionSources) -> (planned: Result<
    NodePlan,
    AppError,
>)
    ensures
        match planned {
            Ok(p) => {
                &&& get_plan_of(arg_of(id), *sources) == Ok::<QueryModel, ErrorModel>(p.plan.query@)
                &&& resolves_to(*sources, p.plan.config)
                &&& Some(p.id_text@) == arg_of(id)
                &&& parsed_i64(p.id_text@) == Some(p.id)
            },
            Err(e) => get_plan_of(arg_of(id), *sources) == Err::<QueryModel, ErrorModel>(e@),
        },
{
    let value = match parse_id(
        id,
        "Missing node ID. Usage: lowmain node get <id>",
        "Invalid node ID: ",
    ) {
        Ok(value) => value,
        Err(e) => {
            return Err(e);
        },
    };
    let config = match connection_config(sources) {
        Ok(config) => config,
        Err(e) => {
            return Err(e);
        },
    };
    let query = compile_get_node(value);
    Ok(NodePlan { plan: Plan { config, query }, id: value, id_text: String::from_str(id.unwrap()) })
}

/// Plans the creation of a node.
pub fn create_plan(label: Option<&str>, props: Option<&str>, sources: &ConnectionSources) -> (planned:
    Result<CreatePlan, AppError>)
    ensures
        match planned {
            Ok(p) => {
                &&& create_plan_of(arg_of(label), arg_of(props), *sources) == Ok::<
                    QueryModel,
                    ErrorModel,
                >(p.plan.query@)
                &&& resolves_to(*sources, p.plan.config)
                &&& Some(p.label@) == arg_of(label)
            },
            Err(e) => create_plan_of(arg_of(label), arg_of(props), *sources) == Err::<
                QueryModel,
                ErrorModel,
            >(e@),
        },
{
    let label = match label {
        Some(label) => label,
        None => {
            return Err(
                invalid_params(
                    "Missing --label. Usage: lowmain node create --label=Person --props='{\"name\":\"Alice\"}'",
                ),
            );
        },
    };
    let props = match props {
        Some(props) => props,
        None => {
            return Err(invalid_params("Missing --props. Provide a JSON object of properties"));
        },
    };
    let entries = match read_properties(props, "Invalid --props JSON: ") {
        Ok(entries) => entries,
        Err(e) => {
            return Err(e);
        },
    };
    let config = match connection_config(sources) {
        Ok(config) => config,
        Err(e) => {
            return Err(e);
        },
    };
    let query = compile_create_node(label, entries);
    Ok(CreatePlan { plan: Plan { config, query }, label: String::from_str(label) })
}

/// Plans the update of a node.
pub fn update_plan(id: Option<&str>, set: Option<&str>, sources: &ConnectionSources) -> (planned:
    Result<NodePlan, AppError>)
    ensures
        match planned {
            Ok(p) => {
                &&& update_plan_of(arg_of(id), arg_of(set), *sources) == Ok::<
                    QueryModel,
                    ErrorModel,
                >(p.plan.query@)
                &&& resolves_to(*sources, p.plan.config)
                &&& Some(p.id_text@) == arg_of(id)
                &&& parsed_i64(p.id_text@) == Some(p.id)
            },
            Err(e) => update_plan_of(arg_of(id), arg_of(set), *sources) == Err::<
                QueryModel,
                ErrorModel,
            >(e@),
        },
{
    let value = match parse_id(
        id,
        "Missing node ID. Usage: lowmain node update <id> --set='{\"name\":\"Bob\"}'",
        "Invalid node ID: ",
    ) {
        Ok(value) => value,
        Err(e) => {
            return Err(e);
        },
    };
    let set = match set {
        Some(set) => set,
        None => {
            return Err(
                invalid_params("Missing --set. Provide a JSON object of properties to update"),
            );
        },
    };
    let entries = match read_properties(set, "Invalid --set JSON: ") {
        Ok(entries) => entries,
        Err(e) => {
            return Err(e);
        },
    };
    let config = match connection_config(sources) {
        Ok(config) => config,
        Err(e) => {
            return Err(e);
        },
    };
    let query = compile_update_node(value, entries);
    Ok(NodePlan { plan: Plan { config, query }, id: value, id_text: String::from_str(id.unwrap()) })
}

/// Plans the deletion of a node.
pub fn delete_plan(id: Option<&str>, detach: bool, sources: &ConnectionSources) -> (planned:
    Result<DeletePlan, AppError>)
    ensures
        match planned {
            Ok(p) => {
                &&& delete_plan_of(arg_of(id), detach, *sources) == Ok::<QueryModel, ErrorModel>(
                    p.plan.query@,
                )
                &&& resolves_to(*sources, p.plan.config)
                &&& Some(p.id_text@) == arg_of(id)
                &&& parsed_i64(p.id_text@) == Some(p.id)
                &&& p.detach == detach
            },
            Err(e) => delete_plan_of(arg_of(id), detach, *sources) == Err::<
                QueryModel,
                ErrorModel,
            >(e@),
        },
{
    let value = match parse_id(
        id,
        "Missing node ID. Usage: lowmain node delete <id>",
        "Invalid node ID: ",
    ) {
        Ok(value) => value,
        Err(e) => {
            return Err(e);
        },
    };
    let config = match connection_config(sources) {
        Ok(config) => config,
        Err(e) => {
            return Err(e);
        },
    };
    let query = compile_delete_node(value, detach);
    Ok(
        DeletePlan {
            plan: Plan { config, query },
            id: value,
            id_text: String::from_str(id.unwrap()),
            detach,
        },
    )
}

/// The suggestion to read the node with an id.
pub open spec fn get_suggestion(id: i64, description: Seq<char>) -> ActionModel {
    literal_action("lowmain node get "@ + signed_decimal(id as int), description)
}

/// The suggestion to read a node that a search found.
pub open spec fn found_suggestion(id: i64) -> ActionModel {
    get_suggestion(id, "Get node "@ + signed_decimal(id as int) + " details"@)
}

/// The suggestion to create a node of a label; the caller adds the
/// properties.
pub open spec fn create_suggestion(label: Seq<char>) -> ActionModel {
    ActionModel {
        command: "lowmain node create --label="@ + label,
        description: "Create a new "@ + label + " node"@,
        params: seq![("--props"@, required_param("JSON properties"@))],
    }
}

/// The suggestion to create a relationship from a node; the caller adds the
/// target and the type.
pub open spec fn relate_suggestion(id: i64) -> ActionModel {
    ActionModel {
        command: "lowmain rel create --from="@ + signed_decimal(id as int),
        description: "Create relationship from this node"@,
        params: seq![
            ("--to"@, required_param("Target node ID"@)),
            ("--type"@, required_param("Relationship type"@)),
        ],
    }
}

/// The suggestion to update a node; the caller adds the properties.
pub open spec fn update_suggestion(id: i64) -> ActionModel {
    ActionModel {
        command: "lowmain node update "@ + signed_decimal(id as int),
        description: "Update this node"@,
        params: seq![("--set"@, required_param("JSON properties to set"@))],
    }
}

/// The suggestion to delete a node.
pub open spec fn delete_suggestion(id: i64) -> ActionModel {
    literal_action("lowmain node delete "@ + signed_decimal(id as int), "Delete this node"@)
}

/// The number of nodes for which a search suggests a read.
pub open spec fn suggested_count(found: nat) -> nat {
    if found < MAX_ENTITY_SUGGESTIONS {
        found
    } else {
        MAX_ENTITY_SUGGESTIONS as nat
    }
}

/// The suggestions to read the first nodes that a search found.
pub open spec fn entity_suggestions(nodes: Seq<CanonicalNode>) -> Seq<ActionModel> {
    Seq::new(suggested_count(nodes.len()), |i: int| found_suggestion(nodes[i].id))
}

/// The JSON objects of the nodes, in order.
pub open spec fn node_objects(nodes: Seq<CanonicalNode>) -> Seq<JsonModel> {
    Seq::new(nodes.len(), |i: int| nodes[i].json())
}

/// The answer to a search for nodes: the query, the nodes, their number and
/// the label; a suggestion to read each of the first nodes, and one to
/// create a node of the label.
pub open spec fn find_output_of(
    label: Seq<char>,
    cypher: Seq<char>,
    nodes: Seq<CanonicalNode>,
) -> OutputModel {
    OutputModel {
        data: JsonModel::Object(
            seq![
                ("cypher"@, JsonModel::String(cypher)),
                ("nodes"@, JsonModel::Array(node_objects(nodes))),
                ("count"@, JsonModel::Unsigned(nodes.len() as u64)),
                ("label"@, JsonModel::String(label)),
            ],
        ),
        next_actions: entity_suggestions(nodes).push(create_suggestion(label)),
    }
}

/// The answer to the read of a node.
pub open spec fn get_output_of(id: i64, node: CanonicalNode) -> OutputModel {
    OutputModel {
        data: JsonModel::Object(seq![("node"@, node.json())]),
        next_actions: seq![
            update_suggestion(id),
            delete_suggestion(id),
            literal_action(
                "lowmain rel find --from="@ + signed_decimal(id as int),
                "Find outgoing relationships"@,
            ),
            literal_action(
                "lowmain rel find --to="@ + signed_decimal(id as int),
                "Find incoming relationships"@,
            ),
            relate_suggestion(id),
        ],
    }
}

/// The answer to the creation of a node. Its suggestions speak of the id
/// that the store gave the node.
pub open spec fn create_output_of(label: Seq<char>, node: CanonicalNode) -> OutputModel {
    OutputModel {
        data: JsonModel::Object(
            seq![("created"@, JsonModel::Bool(true)), ("node"@, node.json())],
        ),
        next_actions: seq![
            get_suggestion(node.id, "View created node"@),
            relate_suggestion(node.id),
            literal_action(
                "lowmain node find --label="@ + label,
                "Find all "@ + label + " nodes"@,
            ),
        ],
    }
}

/// The answer to the update of a node.
pub open spec fn update_output_of(id: i64, node: CanonicalNode) -> OutputModel {
    OutputModel {
        data: JsonModel::Object(
            seq![("updated"@, JsonModel::Bool(true)), ("node"@, node.json())],
        ),
        next_actions: seq![get_suggestion(id, "View updated node"@), delete_suggestion(id)],
    }
}

/// The answer to the deletion of a node.
pub open spec fn delete_output_of(id: i64, detach: bool) -> OutputModel {
    OutputModel {
        data: JsonModel::Object(
            seq![
                ("deleted"@, JsonModel::Bool(true)),
                ("id"@, JsonModel::Integer(id)),
                ("detach"@, JsonModel::Bool(detach)),
            ],
        ),
        next_actions: seq![
            literal_action("lowmain schema"@, "Explore database structure"@),
            ActionModel {
                command: "lowmain node find"@,
                description: "Find nodes"@,
                params: seq![("--label"@, required_param("Node label"@))],
            },
        ],
    }
}

/// The suggestion to create a relationship from a node.
pub fn relate_action(id: i64) -> (action: NextAction)
    ensures
        action@ == relate_suggestion(id),
{
    let action = NextAction::new(
        join("lowmain rel create --from=", signed_text(id).as_str()),
        String::from_str("Create relationship from this node"),
    ).with_param("--to", ActionParam::required("Target node ID")).with_param(
        "--type",
        ActionParam::required("Relationship type"),
    );
    assert(action@.params =~= relate_suggestion(id).params);
    action
}

/// The suggestion to read the node with an id.
pub fn get_action(id: i64, description: String) -> (action: NextAction)
    ensures
        action@ == get_suggestion(id, description@),
{
    NextAction::new(join("lowmain node get ", signed_text(id).as_str()), description)
}

/// The suggestion to delete a node.
pub fn delete_action(id: i64) -> (action: NextAction)
    ensures
        action@ == delete_suggestion(id),
{
    NextAction::new(
        join("lowmain node delete ", signed_text(id).as_str()),
        String::from_str("Delete this node"),
    )
}

/// The JSON objects of the nodes, in order.
fn nodes_to_json(nodes: Vec<CanonicalNode>) -> (objects: Vec<JsonValue>)
    ensures
        models_of(objects@) == node_objects(nodes@),
{
    let ghost given = nodes@;
    let n = nodes.len();
    let mut back = reversed(nodes);
    let mut objects: Vec<JsonValue> = Vec::new();
    while objects.len() < n
        invariant
            n == given.len(),
            objects@.len() <= n,
            back@.len() == n - objects@.len(),
            forall|j: int| 0 <= j < back@.len() ==> back@[j] == given[n - 1 - j],
            forall|j: int| 0 <= j < objects@.len() ==> (#[trigger] objects@[j])@ == given[j].json(),
        decreases n - objects@.len(),
    {
        let node = back.pop().unwrap();
        objects.push(node.to_json());
    }
    assert(models_of(objects@) =~= node_objects(given));
    objects
}

/// Answers a search for nodes.
pub fn find_output(label: &str, cypher: &str, nodes: Vec<CanonicalNode>) -> (output: CommandOutput)
    ensures
        output@ == find_output_of(label@, cypher@, nodes@),
        output.next_actions@.len() == suggested_count(nodes@.len()) + 1,
        output.next_actions@.len() <= MAX_ENTITY_SUGGESTIONS + 1,
{
    let count = nodes.len();
    let mut actions: Vec<NextAction> = Vec::new();
    let mut i: usize = 0;
    while i < count && i < MAX_ENTITY_SUGGESTIONS
        invariant
            count == nodes@.len(),
            i <= count,
            i <= MAX_ENTITY_SUGGESTIONS,
            actions@.len() == i,
            forall|j: int| 0 <= j < i ==> (#[trigger] actions@[j])@ == found_suggestion(nodes@[j].id),
        decreases count - i,
    {
        let id = nodes[i].id;
        let description = enclose("Get node ", signed_text(id).as_str(), " details");
        actions.push(get_action(id, description));
        i = i + 1;
    }
    assert(actions_model(actions@) =~= entity_suggestions(nodes@));
    let ghost before = actions_model(actions@);
    let create = NextAction::new(
        join("lowmain node create --label=", label),
        enclose("Create a new ", label, " node"),
    ).with_param("--props", ActionParam::required("JSON properties"));
    assert(create@.params =~= create_suggestion(label@).params);
    actions.push(create);
    assert(actions_model(actions@) =~= before.push(create_suggestion(label@)));
    let ghost given = nodes@;
    let objects = nodes_to_json(nodes);
    let mut fields: Vec<(String, JsonValue)> = Vec::new();
    fields.push(field("cypher", JsonValue::string(cypher)));
    fields.push(field("nodes", JsonValue::array(objects)));
    fields.push(field("count", JsonValue::Unsigned(count as u64)));
    fields.push(field("label", JsonValue::string(label)));
    assert(fields_of(fields@) =~= seq![
        ("cypher"@, JsonModel::String(cypher@)),
        ("nodes"@, JsonModel::Array(node_objects(given))),
        ("count"@, JsonModel::Unsigned(given.len() as u64)),
        ("label"@, JsonModel::String(label@)),
    ]);
    CommandOutput { data: JsonValue::object(fields), next_actions: actions }
}

/// Answers the read of a node.
pub fn get_output(id: i64, node: CanonicalNode) -> (output: CommandOutput)
    ensures
        output@ == get_output_of(id, node),
{
    let mut actions: Vec<NextAction> = Vec::new();
    let update = NextAction::new(
        join("lowmain node update ", signed_text(id).as_str()),
        String::from_str("Update this node"),
    ).with_param("--set", ActionParam::required("JSON properties to set"));
    assert(update@.params =~= update_suggestion(id).params);
    actions.push(update);
    actions.push(delete_action(id));
    actions.push(
        NextAction::new(
            join("lowmain rel find --from=", signed_text(id).as_str()),
            String::from_str("Find outgoing relationships"),
        ),
    );
    actions.push(
        NextAction::new(
            join("lowmain rel find --to=", signed_text(id).as_str()),
            String::from_str("Find incoming relationships"),
        ),
    );
    actions.push(relate_action(id));
    assert(actions_model(actions@) =~= get_output_of(id, node).next_actions);
    let mut fields: Vec<(String, JsonValue)> = Vec::new();
    fields.push(field("node", node.to_json()));
    assert(fields_of(fields@) =~= seq![("node"@, node.json())]);
    CommandOutput { data: JsonValue::object(fields), next_actions: actions }
}

/// Answers the creation of a node.
pub fn create_output(label: &str, node: CanonicalNode) -> (output: CommandOutput)
    ensures
        output@ == create_output_of(label@, node),
{
    let id = node.id;
    let mut actions: Vec<NextAction> = Vec::new();
    actions.push(get_action(id, String::from_str("View created node")));
    actions.push(relate_action(id));
    actions.push(
        NextAction::new(
            join("lowmain node find --label=", label),
            enclose("Find all ", label, " nodes"),
        ),
    );
    assert(actions_model(actions@) =~= create_output_of(label@, node).next_actions);
    let mut fields: Vec<(String, JsonValue)> = Vec::new();
    fields.push(field("created", JsonValue::Bool(true)));
    fields.push(field("node", node.to_json()));
    assert(fields_of(fields@) =~= seq![
        ("created"@, JsonModel::Bool(true)),
        ("node"@, node.json()),
    ]);
    CommandOutput { data: JsonValue::object(fields), next_actions: actions }
}

/// Answers the update of a node.
pub fn update_output(id: i64, node: CanonicalNode) -> (output: CommandOutput)
    ensures
        output@ == update_output_of(id, node),
{
    let mut actions: Vec<NextAction> = Vec::new();
    actions.push(get_action(id, String::from_str("View updated node")));
    actions.push(delete_action(id));
    assert(actions_model(actions@) =~= update_output_of(id, node).next_actions);
    let mut fields: Vec<(String, JsonValue)> = Vec::new();
    fields.push(field("updated", JsonValue::Bool(true)));
    fields.push(field("node", node.to_json()));
    assert(fields_of(fields@) =~= seq![
        ("updated"@, JsonModel::Bool(true)),
        ("node"@, node.json()),
    ]);
    CommandOutput { data: JsonValue::object(fields), next_actions: actions }
}

/// Answers the deletion of a node.
pub fn delete_output(id: i64, detach: bool) -> (output: CommandOutput)
    ensures
        output@ == delete_output_of(id, detach),
{
    let mut actions: Vec<NextAction> = Vec::new();
    actions.push(NextAction::fixed("lowmain schema", "Explore database structure"));
    let find = NextAction::fixed("lowmain node find", "Find nodes").with_param(
        "--label",
        ActionParam::required("Node label"),
    );
    assert(find@.params =~= seq![("--label"@, required_param("Node label"@))]);
    actions.push(find);
    assert(actions_model(actions@) =~= delete_output_of(id, detach).next_actions);
    let mut fields: Vec<(String, JsonValue)> = Vec::new();
    fields.push(field("deleted", JsonValue::Bool(true)));
    fields.push(field("id", JsonValue::Integer(id)));
    fields.push(field("detach", JsonValue::Bool(detach)));
    assert(fields_of(fields@) =~= seq![
        ("deleted"@, JsonModel::Bool(true)),
        ("id"@, JsonModel::Integer(id)),
        ("detach"@, JsonModel::Bool(detach)),
    ]);
    CommandOutput { data: JsonValue::object(fields), next_actions: actions }
}

/// What the read of a node comes to, from what the store returned: nothing,
/// a row that holds no node, or a node.
pub fn get_result(id_text: &str, id: i64, fetched: Option<Result<CanonicalNode, String>>) -> (result:
    Result<CommandOutput, AppError>)
    ensures
        match fetched {
            None => result is Err && result->Err_0@ == node_not_found(id_text@),
            Some(Err(why)) => result is Err && result->Err_0@ == query_failed(why@),
            Some(Ok(node)) => result is Ok && result->Ok_0@ == get_output_of(id, node),
        },
{
    match fetched {
        None => Err(AppError::NodeNotFound { id: String::from_str(id_text) }),
        Some(Err(why)) => Err(AppError::QueryFailed { reason: why }),
        Some(Ok(node)) => Ok(get_output(id, node)),
    }
}

/// What the creation of a node comes to, from what the store returned.
pub fn create_result(label: &str, fetched: Option<Result<CanonicalNode, String>>) -> (result:
    Result<CommandOutput, AppError>)
    ensures
        match fetched {
            None => result is Err && result->Err_0@ == query_failed(
                "CREATE did not return a node"@,
            ),
            Some(Err(why)) => result is Err && result->Err_0@ == query_failed(why@),
            Some(Ok(node)) => result is Ok && result->Ok_0@ == create_output_of(label@, node),
        },
{
    match fetched {
        None => Err(
            AppError::QueryFailed { reason: String::from_str("CREATE did not return a node") },
        ),
        Some(Err(why)) => Err(AppError::QueryFailed { reason: why }),
        Some(Ok(node)) => Ok(create_output(label, node)),
    }
}

/// What the update of a node comes to, from what the store returned.
pub fn update_result(id_text: &str, id: i64, fetched: Option<Result<CanonicalNode, String>>) -> (result:
    Result<CommandOutput, AppError>)
    ensures
        match fetched {
            None => result is Err && result->Err_0@ == node_not_found(id_text@),
            Some(Err(why)) => result is Err && result->Err_0@ == query_failed(why@),
            Some(Ok(node)) => result is Ok && result->Ok_0@ == update_output_of(id, node),
        },
{
    match fetched {
        None => Err(AppError::NodeNotFound { id: String::from_str(id_text) }),
        Some(Err(why)) => Err(AppError::QueryFailed { reason: why }),
        Some(Ok(node)) => Ok(update_output(id, node)),
    }
}

/// The number that a deletion reports: that of the `deleted` column of the
/// first row, or zero where there is no row or the column holds no integer.
pub open spec fn deleted_count(reported: Option<Option<i64>>) -> i64 {
    match reported {
        Some(Some(n)) => n,
        _ => 0,
    }
}

/// What the deletion of a node comes to, from the number that the store
/// reported: it succeeds if and only if that number is not zero.
pub fn delete_result(id_text: &str, id: i64, detach: bool, reported: Option<Option<i64>>) -> (result:
    Result<CommandOutput, AppError>)
    ensures
        deleted_count(reported) == 0 ==> result is Err && result->Err_0@ == node_not_found(
            id_text@,
        ),
        deleted_count(reported) != 0 ==> result is Ok && result->Ok_0@ == delete_output_of(
            id,
            detach,
        ),
{
    let deleted = match reported {
        Some(Some(n)) => n,
        _ => 0,
    };
    if deleted == 0 {
        Err(AppError::NodeNotFound { id: String::from_str(id_text) })
    } else {
        Ok(delete_output(id, detach))
    }
}

/// What the first row of an answer gives as the node in its column `n`:
/// nothing where there is no row, else the canonical form of a reading of
/// the node, or why the column holds no node.
pub open spec fn is_fetched_node(
    row: Option<&neo4rs::Row>,
    fetched: Option<Result<CanonicalNode, String>>,
) -> bool {
    match row {
        None => fetched is None,
        Some(r) => match row_node_of(*r, "n"@) {
            Ok(node) => fetched matches Some(Ok(canonical)) && canonical_of_node(node, canonical),
            Err(why) => fetched matches Some(Err(text)) && text@ == why,
        },
    }
}

/// What the first row of an answer reports in its column `deleted`.
pub open spec fn reported_deleted(row: Option<&neo4rs::Row>) -> Option<Option<i64>> {
    match row {
        None => None,
        Some(r) => Some(row_integer_of(*r, "deleted"@)),
    }
}

/// `nodes` are the canonical forms of readings of the nodes that the rows
/// hold in their column `n`, in the order of the rows; a row that holds no
/// node there has none.
pub open spec fn are_collected_nodes(rows: Seq<neo4rs::Row>, nodes: Seq<CanonicalNode>) -> bool
    decreases rows.len(),
{
    if rows.len() == 0 {
        nodes.len() == 0
    } else {
        match row_node_of(rows.last(), "n"@) {
            Ok(node) => nodes.len() > 0 && canonical_of_node(node, nodes.last())
                && are_collected_nodes(rows.drop_last(), nodes.drop_last()),
            Err(_) => are_collected_nodes(rows.drop_last(), nodes),
        }
    }
}

/// What an operation on one node comes to, from the first row that the
/// store returned: `missing` without a row, a failed query for a row that
/// holds no node, and else the `answer` for the canonical form of a reading
/// of the node.
pub open spec fn is_node_answer(
    row: Option<&neo4rs::Row>,
    result: Result<CommandOutput, AppError>,
    missing: ErrorModel,
    answer: spec_fn(CanonicalNode) -> OutputModel,
) -> bool {
    match row {
        None => result is Err && result->Err_0@ == missing,
        Some(r) => match row_node_of(*r, "n"@) {
            Err(why) => result is Err && result->Err_0@ == query_failed(why),
            Ok(node) => result is Ok && exists|canonical: CanonicalNode| #[trigger]
                canonical_of_node(node, canonical) && result->Ok_0@ == answer(canonical),
        },
    }
}

/// No more nodes are collected than there are rows.
pub proof fn lemma_collected_nodes_are_bounded(rows: Seq<neo4rs::Row>, nodes: Seq<CanonicalNode>)
    requires
        are_collected_nodes(rows, nodes),
    ensures
        nodes.len() <= rows.len(),
    decreases rows.len(),
{
    if rows.len() > 0 {
        match row_node_of(rows.last(), "n"@) {
            Ok(_) => lemma_collected_nodes_are_bounded(rows.drop_last(), nodes.drop_last()),
            Err(_) => lemma_collected_nodes_are_bounded(rows.drop_last(), nodes),
        }
    }
}

/// Reads the node in the column `n` of the first row, if there is a row.
pub fn fetch_node(row: Option<&neo4rs::Row>) -> (fetched: Option<Result<CanonicalNode, String>>)
    ensures
        is_fetched_node(row, fetched),
{
    match row {
        None => None,
        Some(row) => match row_node(row, "n") {
            Ok(node) => Some(Ok(canonical_node(&node))),
            Err(why) => Some(Err(why)),
        },
    }
}

/// Reads what the column `deleted` of the first row holds, if there is a
/// row.
pub fn fetch_deleted(row: Option<&neo4rs::Row>) -> (reported: Option<Option<i64>>)
    ensures
        reported == reported_deleted(row),
{
    match row {
        None => None,
        Some(row) => Some(row_integer(row, "deleted")),
    }
}

/// The nodes in the column `n` of the rows, in order. A row that holds no
/// node there is passed over.
pub fn collect_nodes(rows: &Vec<neo4rs::Row>) -> (nodes: Vec<CanonicalNode>)
    ensures
        are_collected_nodes(rows@, nodes@),
        nodes@.len() <= rows@.len(),
{
    let mut nodes: Vec<CanonicalNode> = Vec::new();
    let mut i: usize = 0;
    assert(rows@.take(0).len() == 0);
    while i < rows.len()
        invariant
            i <= rows@.len(),
            are_collected_nodes(rows@.take(i as int), nodes@),
        decreases rows@.len() - i,
    {
        let ghost seen = rows@.take(i as int);
        let ghost longer = rows@.take(i + 1);
        let ghost before = nodes@;
        assert(longer.drop_last() =~= seen);
        assert(longer.last() == rows@[i as int]);
        match row_node(&rows[i], "n") {
            Ok(node) => {
                nodes.push(canonical_node(&node));
                assert(nodes@.drop_last() =~= before);
            },
            Err(_) => {},
        }
        i = i + 1;
    }
    assert(rows@.take(i as int) =~= rows@);
    proof {
        lemma_collected_nodes_are_bounded(rows@, nodes@);
    }
    nodes
}

/// Answers a search for nodes from the rows that the store returned: the
/// answer of `find_output` for the nodes that the rows hold.
pub fn find_response(plan: &FindPlan, rows: &Vec<neo4rs::Row>) -> (output: CommandOutput)
    ensures
        exists|nodes: Seq<CanonicalNode>| #[trigger]
            are_collected_nodes(rows@, nodes) && nodes.len() <= rows@.len() && output@
                == find_output_of(plan.label@, plan.plan.query.text@, nodes),
        output.next_actions@.len() <= MAX_ENTITY_SUGGESTIONS + 1,
{
    let nodes = collect_nodes(rows);
    let ghost collected = nodes@;
    let output = find_output(plan.label.as_str(), plan.plan.query.text.as_str(), nodes);
    assert(are_collected_nodes(rows@, collected));
    output
}

/// Answers the read of a node from the first row that the store returned.
/// Without a row the node is not there, and the failure names the id as the
/// caller wrote it.
pub fn get_response(plan: &NodePlan, row: Option<&neo4rs::Row>) -> (result: Result<
    CommandOutput,
    AppError,
>)
    ensures
        is_node_answer(
            row,
            result,
            node_not_found(plan.id_text@),
            |canonical: CanonicalNode| get_output_of(plan.id, canonical),
        ),
{
    let fetched = fetch_node(row);
    let result = get_result(plan.id_text.as_str(), plan.id, fetched);
    result
}

/// Answers the creation of a node from the first row that the store
/// returned.
pub fn create_response(plan: &CreatePlan, row: Option<&neo4rs::Row>) -> (result: Result<
    CommandOutput,
    AppError,
>)
    ensures
        is_node_answer(
            row,
            result,
            query_failed("CREATE did not return a node"@),
            |canonical: CanonicalNode| create_output_of(plan.label@, canonical),
        ),
{
    let fetched = fetch_node(row);
    let result = create_result(plan.label.as_str(), fetched);
    result
}

/// Answers the update of a node from the first row that the store returned.
pub fn update_response(plan: &NodePlan, row: Option<&neo4rs::Row>) -> (result: Result<
    CommandOutput,
    AppError,
>)
    ensures
        is_node_answer(
            row,
            result,
            node_not_found(plan.id_text@),
            |canonical: CanonicalNode| update_output_of(plan.id, canonical),
        ),
{
    let fetched = fetch_node(row);
    let result = update_result(plan.id_text.as_str(), plan.id, fetched);
    result
}

/// Answers the deletion of a node from the first row that the store
/// returned. It succeeds if and only if the row reports that something was
/// deleted, and so never without a row.
pub fn delete_response(plan: &DeletePlan, row: Option<&neo4rs::Row>) -> (result: Result<
    CommandOutput,
    AppError,
>)
    ensures
        deleted_count(reported_deleted(row)) == 0 ==> result is Err && result->Err_0@
            == node_not_found(plan.id_text@),
        deleted_count(reported_deleted(row)) != 0 ==> result is Ok && result->Ok_0@
            == delete_output_of(plan.id, plan.detach),
{
    delete_result(plan.id_text.as_str(), plan.id, plan.detach, fetch_deleted(row))
}

/// The node commands as they present themselves.
pub open spec fn node_commands() -> CommandGroupModel {
    CommandGroupModel {
        command: presents(
            "node"@,
            "Node CRUD operations"@,
            "lowmain node [find|get|create|update|delete]"@,
        ),
        subcommands: seq![
            presents(
                "find"@,
                "Find nodes by label and optional filters"@,
                "lowmain node find --label=<label> [--where=<prop=val>] [--limit=<n>]"@,
            ),
            presents("get"@, "Get a node by internal ID"@, "lowmain node get <id>"@),
            presents(
                "create"@,
                "Create a new node"@,
                "lowmain node create --label=<label> --props=<json>"@,
            ),
            presents(
                "update"@,
                "Update a node's properties"@,
                "lowmain node update <id> --set=<json>"@,
            ),
            presents("delete"@, "Delete a node by ID"@, "lowmain node delete <id> [--detach]"@),
        ],
    }
}

/// The node commands: the group and its five operations.
pub fn presentation() -> (group: CommandGroup)
    ensures
        group@ == node_commands(),
{
    let mut subcommands: Vec<CommandSpec> = Vec::new();
    subcommands.push(
        CommandSpec::new(
            "find",
            "Find nodes by label and optional filters",
            "lowmain node find --label=<label> [--where=<prop=val>] [--limit=<n>]",
        ),
    );
    subcommands.push(CommandSpec::new("get", "Get a node by internal ID", "lowmain node get <id>"));
    subcommands.push(
        CommandSpec::new(
            "create",
            "Create a new node",
            "lowmain node create --label=<label> --props=<json>",
        ),
    );
    subcommands.push(
        CommandSpec::new(
            "update",
            "Update a node's properties",
            "lowmain node update <id> --set=<json>",
        ),
    );
    subcommands.push(
        CommandSpec::new("delete", "Delete a node by ID", "lowmain node delete <id> [--detach]"),
    );
    assert(specs_model(subcommands@) =~= node_commands().subcommands);
    CommandGroup {
        command: CommandSpec::new(
            "node",
            "Node CRUD operations",
            "lowmain node [find|get|create|update|delete]",
        ),
        subcommands,
    }
}

} // verus!
