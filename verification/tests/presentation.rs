use lowmain::commands::{nodes, ping, query, rels, schema, CommandGroup, CommandSpec};
use lowmain::error::panic_envelope;

fn presented(name: &str, description: &str, usage: &str) -> CommandSpec {
    CommandSpec {
        name: name.to_string(),
        description: description.to_string(),
        usage: usage.to_string(),
    }
}

#[test]
fn commands_present_their_usage() {
    assert_eq!(
        ping::presentation(),
        presented(
            "ping",
            "Test Neo4j connection health",
            "lowmain ping [--uri=<uri>] [--user=<user>] [--password=<pw>] [--db=<db>]"
        )
    );
    assert_eq!(
        query::presentation(),
        presented(
            "query",
            "Execute a raw Cypher query",
            "lowmain query <cypher> [--params=<json>] [--limit=<n>] [--write]"
        )
    );
    assert_eq!(
        nodes::presentation(),
        CommandGroup {
            command: presented(
                "node",
                "Node CRUD operations",
                "lowmain node [find|get|create|update|delete]"
            ),
            subcommands: vec![
                presented(
                    "find",
                    "Find nodes by label and optional filters",
                    "lowmain node find --label=<label> [--where=<prop=val>] [--limit=<n>]"
                ),
                presented("get", "Get a node by internal ID", "lowmain node get <id>"),
                presented(
                    "create",
                    "Create a new node",
                    "lowmain node create --label=<label> --props=<json>"
                ),
                presented(
                    "update",
                    "Update a node's properties",
                    "lowmain node update <id> --set=<json>"
                ),
                presented("delete", "Delete a node by ID", "lowmain node delete <id> [--detach]"),
            ],
        }
    );
    assert_eq!(
        rels::presentation(),
        CommandGroup {
            command: presented(
                "rel",
                "Relationship CRUD operations",
                "lowmain rel [find|create|delete]"
            ),
            subcommands: vec![
                presented(
                    "find",
                    "Find relationships by type and/or endpoints",
                    "lowmain rel find [--from=<id>] [--to=<id>] [--type=<type>] [--limit=<n>]"
                ),
                presented(
                    "create",
                    "Create a relationship between two nodes",
                    "lowmain rel create --from=<id> --to=<id> --type=<type> [--props=<json>]"
                ),
                presented("delete", "Delete a relationship by ID", "lowmain rel delete <id>"),
            ],
        }
    );
    assert_eq!(
        schema::presentation(),
        CommandGroup {
            command: presented(
                "schema",
                "Introspect database structure",
                "lowmain schema [labels|types|indexes|constraints|count]"
            ),
            subcommands: vec![
                presented("labels", "List all node labels", "lowmain schema labels"),
                presented("types", "List all relationship types", "lowmain schema types"),
                presented("indexes", "List all indexes", "lowmain schema indexes"),
                presented("constraints", "List all constraints", "lowmain schema constraints"),
                presented("count", "Count nodes and relationships", "lowmain schema count"),
            ],
        }
    );
}

#[test]
fn panic_line_is_a_fixed_envelope() {
    assert_eq!(
        panic_envelope("boom"),
        r#"{"ok":false,"error":{"message":"Internal error: boom","code":"PANIC","retryable":false},"fix":"Report this bug"}"#
    );
    let parsed: serde_json::Value = serde_json::from_str(&panic_envelope("boom")).unwrap();
    assert_eq!(parsed["error"]["code"], "PANIC");
    assert_eq!(parsed["error"]["retryable"], false);
    assert_eq!(parsed["ok"], false);
}
