//! The command surface as a whole: which commands can be run, and that every
//! suggestion that an answer makes runs one of them.

use crate::actions::ActionModel;
use crate::commands::nodes::{self, node_commands, suggested_count};
use crate::commands::ping::{ping_command, ping_output_of};
use crate::commands::query::{query_command, read_output_of, write_output_of};
use crate::commands::rels::{self, relationship_commands};
use crate::commands::schema::{
    constraints_output_of, count_output_of, indexes_output_of, labels_output_of,
    overview_output_of, schema_commands, types_output_of,
};
use crate::commands::{CommandGroupModel, CommandSpecModel};
use crate::convert::{CanonicalNode, CanonicalRelationship};
use crate::json::JsonModel;
use crate::text::signed_decimal;
use vstd::prelude::*;

verus! {

/// The path of a command that stands by itself: the program's name and the
/// command's.
pub open spec fn single_path(command: CommandSpecModel) -> Seq<char> {
    "lowmain "@ + command.name
}

/// The path of the command at position `i` under a group.
pub open spec fn nested_path(group: CommandGroupModel, i: int) -> Seq<char> {
    "lowmain "@ + group.command.name + " "@ + group.subcommands[i].name
}

/// `path` is the path of a group or of one of the commands under it.
pub open spec fn is_path_of(group: CommandGroupModel, path: Seq<char>) -> bool {
    path == single_path(group.command) || exists|i: int|
        0 <= i < group.subcommands.len() && path == #[trigger] nested_path(group, i)
}

/// `path` is the path of a command that is registered.
pub open spec fn is_registered(path: Seq<char>) -> bool {
    ||| path == single_path(ping_command())
    ||| path == single_path(query_command())
    ||| is_path_of(schema_commands(), path)
    ||| is_path_of(node_commands(), path)
    ||| is_path_of(relationship_commands(), path)
}

/// `command` runs the command at `path`: it is the path, or the path
/// followed by a space and what is handed to the command.
pub open spec fn runs(command: Seq<char>, path: Seq<char>) -> bool {
    command == path || (command.len() > path.len() && command.subrange(0, path.len() as int)
        == path && command[path.len() as int] == ' ')
}

/// `command` runs a command that is registered.
pub open spec fn is_runnable(command: Seq<char>) -> bool {
    exists|path: Seq<char>| is_registered(path) && #[trigger] runs(command, path)
}

/// Every action runs a command that is registered.
pub open spec fn all_runnable(actions: Seq<ActionModel>) -> bool {
    forall|i: int| 0 <= i < actions.len() ==> is_runnable((#[trigger] actions[i]).command)
}

/// A path followed by a space and anything runs the command at the path.
proof fn lemma_runs_with_arguments(path: Seq<char>, rest: Seq<char>)
    ensures
        runs(path + " "@ + rest, path),
        runs(path, path),
{
    reveal_strlit(" ");
    let command = path + " "@ + rest;
    assert(command.subrange(0, path.len() as int) =~= path);
    assert(command[path.len() as int] == ' ');
}

/// The paths of the schema commands are registered.
proof fn lemma_schema_paths()
    ensures
        is_registered("lowmain schema"@),
        is_registered("lowmain schema labels"@),
        is_registered("lowmain schema types"@),
        is_registered("lowmain schema indexes"@),
        is_registered("lowmain schema constraints"@),
{
    reveal_strlit("lowmain ");
    reveal_strlit(" ");
    reveal_strlit("schema");
    reveal_strlit("labels");
    reveal_strlit("types");
    reveal_strlit("indexes");
    reveal_strlit("constraints");
    reveal_strlit("lowmain schema");
    reveal_strlit("lowmain schema labels");
    reveal_strlit("lowmain schema types");
    reveal_strlit("lowmain schema indexes");
    reveal_strlit("lowmain schema constraints");
    let group = schema_commands();
    assert("lowmain schema"@ =~= single_path(group.command));
    assert("lowmain schema labels"@ =~= nested_path(group, 0));
    assert("lowmain schema types"@ =~= nested_path(group, 1));
    assert("lowmain schema indexes"@ =~= nested_path(group, 2));
    assert("lowmain schema constraints"@ =~= nested_path(group, 3));
    assert(is_path_of(group, "lowmain schema"@));
    assert(is_path_of(group, "lowmain schema labels"@));
    assert(is_path_of(group, "lowmain schema types"@));
    assert(is_path_of(group, "lowmain schema indexes"@));
    assert(is_path_of(group, "lowmain schema constraints"@));
}

/// The paths of the node commands are registered.
proof fn lemma_node_paths()
    ensures
        is_registered("lowmain node find"@),
        is_registered("lowmain node get"@),
        is_registered("lowmain node create"@),
        is_registered("lowmain node update"@),
        is_registered("lowmain node delete"@),
{
    reveal_strlit("lowmain ");
    reveal_strlit(" ");
    reveal_strlit("node");
    reveal_strlit("find");
    reveal_strlit("get");
    reveal_strlit("create");
    reveal_strlit("update");
    reveal_strlit("delete");
    reveal_strlit("lowmain node find");
    reveal_strlit("lowmain node get");
    reveal_strlit("lowmain node create");
    reveal_strlit("lowmain node update");
    reveal_strlit("lowmain node delete");
    let group = node_commands();
    assert("lowmain node find"@ =~= nested_path(group, 0));
    assert("lowmain node get"@ =~= nested_path(group, 1));
    assert("lowmain node create"@ =~= nested_path(group, 2));
    assert("lowmain node update"@ =~= nested_path(group, 3));
    assert("lowmain node delete"@ =~= nested_path(group, 4));
    assert(is_path_of(group, "lowmain node find"@));
    assert(is_path_of(group, "lowmain node get"@));
    assert(is_path_of(group, "lowmain node create"@));
    assert(is_path_of(group, "lowmain node update"@));
    assert(is_path_of(group, "lowmain node delete"@));
}

/// The paths of the relationship commands are registered.
proof fn lemma_relationship_paths()
    ensures
        is_registered("lowmain rel find"@),
        is_registered("lowmain rel create"@),
        is_registered("lowmain rel delete"@),
{
    reveal_strlit("lowmain ");
    reveal_strlit(" ");
    reveal_strlit("rel");
    reveal_strlit("find");
    reveal_strlit("create");
    reveal_strlit("delete");
    reveal_strlit("lowmain rel find");
    reveal_strlit("lowmain rel create");
    reveal_strlit("lowmain rel delete");
    let group = relationship_commands();
    assert("lowmain rel find"@ =~= nested_path(group, 0));
    assert("lowmain rel create"@ =~= nested_path(group, 1));
    assert("lowmain rel delete"@ =~= nested_path(group, 2));
    assert(is_path_of(group, "lowmain rel find"@));
    assert(is_path_of(group, "lowmain rel create"@));
    assert(is_path_of(group, "lowmain rel delete"@));
}

/// The path of the raw query is registered.
proof fn lemma_query_path()
    ensures
        is_registered("lowmain query"@),
{
    reveal_strlit("lowmain ");
    reveal_strlit("query");
    reveal_strlit("lowmain query");
    assert("lowmain query"@ =~= single_path(query_command()));
}

/// A command that is a registered path runs it.
proof fn lemma_runs_bare(path: Seq<char>)
    requires
        is_registered(path),
    ensures
        is_runnable(path),
{
    assert(runs(path, path));
}

/// A command that is a registered path, a space and arguments runs the
/// path.
proof fn lemma_runs_path(path: Seq<char>, spaced: Seq<char>, rest: Seq<char>)
    requires
        is_registered(path),
        spaced == path + " "@,
    ensures
        is_runnable(spaced + rest),
{
    lemma_runs_with_arguments(path, rest);
    assert(spaced + rest =~= path + " "@ + rest);
}

/// The read of a node is runnable for every id.
proof fn lemma_node_get_runs(rest: Seq<char>)
    ensures
        is_runnable("lowmain node get "@ + rest),
{
    lemma_node_paths();
    reveal_strlit("lowmain node get ");
    reveal_strlit("lowmain node get");
    reveal_strlit(" ");
    assert("lowmain node get "@ =~= "lowmain node get"@ + " "@);
    lemma_runs_path("lowmain node get"@, "lowmain node get "@, rest);
}

/// The creation of a relationship is runnable from every node.
proof fn lemma_rel_create_runs(rest: Seq<char>)
    ensures
        is_runnable("lowmain rel create --from="@ + rest),
{
    lemma_relationship_paths();
    reveal_strlit("lowmain rel create --from=");
    reveal_strlit("lowmain rel create");
    reveal_strlit(" ");
    reveal_strlit("--from=");
    assert("lowmain rel create --from="@ =~= "lowmain rel create"@ + " "@ + "--from="@);
    lemma_runs_with_arguments("lowmain rel create"@, "--from="@ + rest);
    assert("lowmain rel create --from="@ + rest =~= "lowmain rel create"@ + " "@ + ("--from="@
        + rest));
}

/// The search for the nodes of a label is runnable for every label.
proof fn lemma_node_find_label_runs(rest: Seq<char>)
    ensures
        is_runnable("lowmain node find --label="@ + rest),
{
    lemma_node_paths();
    reveal_strlit("lowmain node find --label=");
    reveal_strlit("lowmain node find");
    reveal_strlit(" ");
    reveal_strlit("--label=");
    assert("lowmain node find --label="@ =~= "lowmain node find"@ + " "@ + "--label="@);
    lemma_runs_with_arguments("lowmain node find"@, "--label="@ + rest);
    assert("lowmain node find --label="@ + rest =~= "lowmain node find"@ + " "@ + ("--label="@
        + rest));
}

/// The deletion of a node is runnable for every id.
proof fn lemma_node_delete_runs(rest: Seq<char>)
    ensures
        is_runnable("lowmain node delete "@ + rest),
{
    lemma_node_paths();
    reveal_strlit("lowmain node delete ");
    reveal_strlit("lowmain node delete");
    reveal_strlit(" ");
    assert("lowmain node delete "@ =~= "lowmain node delete"@ + " "@);
    lemma_runs_path("lowmain node delete"@, "lowmain node delete "@, rest);
}

/// Every suggestion of a search for nodes runs a registered command.
pub proof fn law_find_suggestions_run(
    label: Seq<char>,
    cypher: Seq<char>,
    nodes: Seq<CanonicalNode>,
)
    ensures
        all_runnable(nodes::find_output_of(label, cypher, nodes).next_actions),
{
    let actions = nodes::find_output_of(label, cypher, nodes).next_actions;
    assert forall|i: int| 0 <= i < actions.len() implies is_runnable(
        (#[trigger] actions[i]).command,
    ) by {
        if i < actions.len() - 1 {
            lemma_node_get_runs(signed_decimal(nodes[i].id as int));
        } else {
            lemma_node_paths();
            reveal_strlit("lowmain node create --label=");
            reveal_strlit("lowmain node create");
            reveal_strlit(" ");
            reveal_strlit("--label=");
            assert("lowmain node create --label="@ =~= "lowmain node create"@ + " "@
                + "--label="@);
            lemma_runs_with_arguments("lowmain node create"@, "--label="@ + label);
            assert("lowmain node create --label="@ + label =~= "lowmain node create"@ + " "@ + (
            "--label="@ + label));
        }
    }
}

/// Every suggestion of the read of a node runs a registered command.
pub proof fn law_get_suggestions_run(id: i64, node: CanonicalNode)
    ensures
        all_runnable(nodes::get_output_of(id, node).next_actions),
{
    let actions = nodes::get_output_of(id, node).next_actions;
    let numeral = signed_decimal(id as int);
    lemma_node_paths();
    lemma_relationship_paths();
    reveal_strlit(" ");
    reveal_strlit("lowmain node update ");
    reveal_strlit("lowmain node update");
    assert("lowmain node update "@ =~= "lowmain node update"@ + " "@);
    lemma_runs_path("lowmain node update"@, "lowmain node update "@, numeral);
    lemma_node_delete_runs(numeral);
    reveal_strlit("lowmain rel find --from=");
    reveal_strlit("lowmain rel find --to=");
    reveal_strlit("lowmain rel find");
    reveal_strlit("--from=");
    reveal_strlit("--to=");
    assert("lowmain rel find --from="@ =~= "lowmain rel find"@ + " "@ + "--from="@);
    assert("lowmain rel find --to="@ =~= "lowmain rel find"@ + " "@ + "--to="@);
    lemma_runs_with_arguments("lowmain rel find"@, "--from="@ + numeral);
    lemma_runs_with_arguments("lowmain rel find"@, "--to="@ + numeral);
    assert("lowmain rel find --from="@ + numeral =~= "lowmain rel find"@ + " "@ + ("--from="@
        + numeral));
    assert("lowmain rel find --to="@ + numeral =~= "lowmain rel find"@ + " "@ + ("--to="@
        + numeral));
    lemma_rel_create_runs(numeral);
    assert forall|i: int| 0 <= i < actions.len() implies is_runnable(
        (#[trigger] actions[i]).command,
    ) by {}
}

/// Every suggestion of the creation of a node runs a registered command.
pub proof fn law_create_suggestions_run(label: Seq<char>, node: CanonicalNode)
    ensures
        all_runnable(nodes::create_output_of(label, node).next_actions),
{
    let actions = nodes::create_output_of(label, node).next_actions;
    let numeral = signed_decimal(node.id as int);
    lemma_node_get_runs(numeral);
    lemma_rel_create_runs(numeral);
    lemma_node_find_label_runs(label);
    assert forall|i: int| 0 <= i < actions.len() implies is_runnable(
        (#[trigger] actions[i]).command,
    ) by {}
}

/// Every suggestion of the update of a node runs a registered command.
pub proof fn law_update_suggestions_run(id: i64, node: CanonicalNode)
    ensures
        all_runnable(nodes::update_output_of(id, node).next_actions),
{
    let actions = nodes::update_output_of(id, node).next_actions;
    let numeral = signed_decimal(id as int);
    lemma_node_get_runs(numeral);
    lemma_node_delete_runs(numeral);
    assert forall|i: int| 0 <= i < actions.len() implies is_runnable(
        (#[trigger] actions[i]).command,
    ) by {}
}

/// Every suggestion of the deletion of a node runs a registered command.
pub proof fn law_delete_suggestions_run(id: i64, detach: bool)
    ensures
        all_runnable(nodes::delete_output_of(id, detach).next_actions),
{
    let actions = nodes::delete_output_of(id, detach).next_actions;
    lemma_schema_paths();
    lemma_node_paths();
    lemma_runs_bare("lowmain schema"@);
    lemma_runs_bare("lowmain node find"@);
    assert forall|i: int| 0 <= i < actions.len() implies is_runnable(
        (#[trigger] actions[i]).command,
    ) by {}
}

/// Every suggestion of the relationship operations runs a registered
/// command.
pub proof fn law_relationship_suggestions_run(
    relationships: Seq<CanonicalRelationship>,
    from: i64,
    to: i64,
    relationship: CanonicalRelationship,
    id: i64,
)
    ensures
        all_runnable(rels::find_output_of(relationships).next_actions),
        all_runnable(rels::create_output_of(from, to, relationship).next_actions),
        all_runnable(rels::delete_output_of(id).next_actions),
{
    lemma_schema_paths();
    lemma_relationship_paths();
    lemma_runs_bare("lowmain rel create"@);
    lemma_runs_bare("lowmain rel find"@);
    lemma_runs_bare("lowmain schema types"@);
    lemma_node_get_runs(signed_decimal(from as int));
    lemma_node_get_runs(signed_decimal(to as int));
    let numeral = signed_decimal(relationship.id as int);
    reveal_strlit(" ");
    reveal_strlit("lowmain rel delete ");
    reveal_strlit("lowmain rel delete");
    assert("lowmain rel delete "@ =~= "lowmain rel delete"@ + " "@);
    lemma_runs_path("lowmain rel delete"@, "lowmain rel delete "@, numeral);
    let found = rels::find_output_of(relationships).next_actions;
    assert forall|i: int| 0 <= i < found.len() implies is_runnable(
        (#[trigger] found[i]).command,
    ) by {}
    let created = rels::create_output_of(from, to, relationship).next_actions;
    assert forall|i: int| 0 <= i < created.len() implies is_runnable(
        (#[trigger] created[i]).command,
    ) by {}
    let deleted = rels::delete_output_of(id).next_actions;
    assert forall|i: int| 0 <= i < deleted.len() implies is_runnable(
        (#[trigger] deleted[i]).command,
    ) by {}
}

/// Every suggestion of a raw query and of a connectivity check runs a
/// registered command.
pub proof fn law_query_suggestions_run(
    cypher: Seq<char>,
    documents: Seq<JsonModel>,
    limit: usize,
    uri: Seq<char>,
    database: Seq<char>,
)
    ensures
        all_runnable(write_output_of(cypher).next_actions),
        all_runnable(read_output_of(cypher, documents, limit).next_actions),
        all_runnable(ping_output_of(uri, database).next_actions),
{
    lemma_schema_paths();
    lemma_query_path();
    lemma_node_paths();
    lemma_runs_bare("lowmain schema"@);
    lemma_runs_bare("lowmain query"@);
    lemma_runs_bare("lowmain node find"@);
    let written = write_output_of(cypher).next_actions;
    assert forall|i: int| 0 <= i < written.len() implies is_runnable(
        (#[trigger] written[i]).command,
    ) by {}
    let read = read_output_of(cypher, documents, limit).next_actions;
    assert forall|i: int| 0 <= i < read.len() implies is_runnable((#[trigger] read[i]).command) by {}
    let pinged = ping_output_of(uri, database).next_actions;
    assert forall|i: int| 0 <= i < pinged.len() implies is_runnable(
        (#[trigger] pinged[i]).command,
    ) by {}
}

/// Every suggestion of the schema commands runs a registered command.
pub proof fn law_schema_suggestions_run(
    labels: Seq<Seq<char>>,
    types: Seq<Seq<char>>,
    indexes: Seq<JsonModel>,
    constraints: Seq<JsonModel>,
    node_count: i64,
    relationship_count: i64,
)
    ensures
        all_runnable(labels_output_of(labels).next_actions),
        all_runnable(types_output_of(types).next_actions),
        all_runnable(indexes_output_of(indexes).next_actions),
        all_runnable(constraints_output_of(constraints).next_actions),
        all_runnable(count_output_of(node_count, relationship_count).next_actions),
        all_runnable(overview_output_of(labels, types, indexes, constraints).next_actions),
{
    lemma_schema_paths();
    lemma_query_path();
    lemma_node_paths();
    lemma_relationship_paths();
    lemma_runs_bare("lowmain schema constraints"@);
    lemma_runs_bare("lowmain schema indexes"@);
    lemma_runs_bare("lowmain schema labels"@);
    lemma_runs_bare("lowmain schema types"@);
    lemma_runs_bare("lowmain node create"@);
    lemma_runs_bare("lowmain query"@);
    let by_label = labels_output_of(labels).next_actions;
    assert forall|i: int| 0 <= i < by_label.len() implies is_runnable(
        (#[trigger] by_label[i]).command,
    ) by {
        lemma_node_find_label_runs(labels[i]);
    }
    let by_type = types_output_of(types).next_actions;
    assert forall|i: int| 0 <= i < by_type.len() implies is_runnable(
        (#[trigger] by_type[i]).command,
    ) by {
        reveal_strlit("lowmain rel find --type=");
        reveal_strlit("lowmain rel find");
        reveal_strlit(" ");
        reveal_strlit("--type=");
        assert("lowmain rel find --type="@ =~= "lowmain rel find"@ + " "@ + "--type="@);
        lemma_runs_with_arguments("lowmain rel find"@, "--type="@ + types[i]);
        assert("lowmain rel find --type="@ + types[i] =~= "lowmain rel find"@ + " "@ + (
        "--type="@ + types[i]));
    }
    let listed = indexes_output_of(indexes).next_actions;
    assert forall|i: int| 0 <= i < listed.len() implies is_runnable(
        (#[trigger] listed[i]).command,
    ) by {}
    let constrained = constraints_output_of(constraints).next_actions;
    assert forall|i: int| 0 <= i < constrained.len() implies is_runnable(
        (#[trigger] constrained[i]).command,
    ) by {}
    let counted = count_output_of(node_count, relationship_count).next_actions;
    assert forall|i: int| 0 <= i < counted.len() implies is_runnable(
        (#[trigger] counted[i]).command,
    ) by {}
    let overview = overview_output_of(labels, types, indexes, constraints).next_actions;
    assert forall|i: int| 0 <= i < overview.len() implies is_runnable(
        (#[trigger] overview[i]).command,
    ) by {
        if i < suggested_count(labels.len()) {
            lemma_node_find_label_runs(labels[i]);
        }
    }
}

} // verus!
