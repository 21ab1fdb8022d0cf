//! The query compiler: from the fields of a request to the text of a query
//! and the parameters bound to it.
//!
//! A label, a relationship type or a property key is written into the text
//! between backticks, with every backtick of its own doubled, so that it
//! stays one identifier. Every value goes to the parameters and never into
//! the text.

use crate::json::{entries_model, JsonEntryModel, JsonEntry};
use crate::order::reversed;
use crate::text::{decimal, unsigned_text};
use vstd::prelude::*;
use vstd::string::*;

verus! {

/// A value bound to a query under a name, with the type under which the
/// store receives it.
#[derive(Debug, PartialEq)]
pub enum Param {
    Text(String),
    Integer(i64),
    Float(serde_json::Number),
    Boolean(bool),
}

/// What a `Param` is, as mathematics.
pub enum ParamModel {
    Text(Seq<char>),
    Integer(i64),
    Float(serde_json::Number),
    Boolean(bool),
}

impl View for Param {
    type V = ParamModel;

    open spec fn view(&self) -> ParamModel {
        match self {
            Param::Text(s) => ParamModel::Text(s@),
            Param::Integer(i) => ParamModel::Integer(*i),
            Param::Float(n) => ParamModel::Float(*n),
            Param::Boolean(b) => ParamModel::Boolean(*b),
        }
    }
}

/// A compiled query: its text, and its parameters in the order in which they
/// are bound. Where a name is bound twice, the later binding is the one that
/// the store sees.
#[derive(Debug, PartialEq)]
pub struct QueryRequest {
    pub text: String,
    pub params: Vec<(String, Param)>,
}

/// What a `QueryRequest` is, as mathematics.
pub struct QueryModel {
    pub text: Seq<char>,
    pub params: Seq<(Seq<char>, ParamModel)>,
}

/// The models of a sequence of bindings.
pub open spec fn params_model(params: Seq<(String, Param)>) -> Seq<(Seq<char>, ParamModel)> {
    Seq::new(params.len(), |i: int| (params[i].0@, params[i].1@))
}

impl View for QueryRequest {
    type V = QueryModel;

    open spec fn view(&self) -> QueryModel {
        QueryModel { text: self.text@, params: params_model(self.params@) }
    }
}

/// The type under which a JSON value is bound: a string as text; a number
/// as an integer where it is one of 64 bits, and else as a float; a boolean
/// as a boolean; a null, an array and an object as the text that renders
/// them.
pub open spec fn inferred(value: JsonEntryModel) -> ParamModel {
    match value {
        JsonEntryModel::String(s) => ParamModel::Text(s),
        JsonEntryModel::Number { integer: Some(i), number } => ParamModel::Integer(i),
        JsonEntryModel::Number { integer: None, number } => ParamModel::Float(number),
        JsonEntryModel::Bool(b) => ParamModel::Boolean(b),
        JsonEntryModel::Null(t) => ParamModel::Text(t),
        JsonEntryModel::Array(t) => ParamModel::Text(t),
        JsonEntryModel::Object(t) => ParamModel::Text(t),
    }
}

/// One binding for each property, under the property's key, in order.
pub open spec fn property_params(entries: Seq<(Seq<char>, JsonEntryModel)>) -> Seq<
    (Seq<char>, ParamModel),
> {
    Seq::new(entries.len(), |i: int| (entries[i].0, inferred(entries[i].1)))
}

/// An identifier with every backtick in it doubled, so that none of them
/// ends the quotation that the identifier stands in.
pub open spec fn escaped(identifier: Seq<char>) -> Seq<char>
    decreases identifier.len(),
{
    if identifier.len() == 0 {
        Seq::empty()
    } else if identifier.last() == '`' {
        escaped(identifier.drop_last()) + "``"@
    } else {
        escaped(identifier.drop_last()).push(identifier.last())
    }
}

/// An identifier as it stands in the text of a query: escaped, between two
/// backticks.
pub open spec fn quoted(identifier: Seq<char>) -> Seq<char> {
    "`"@ + escaped(identifier) + "`"@
}

/// The assignment of the parameter named `key` to the property `key` of the
/// variable `variable`.
pub open spec fn assignment(variable: Seq<char>, key: Seq<char>) -> Seq<char> {
    variable + "."@ + quoted(key) + " = $"@ + quoted(key)
}

/// The assignments of all `keys`, separated by a comma and a space.
pub open spec fn set_clause(variable: Seq<char>, keys: Seq<Seq<char>>) -> Seq<char>
    decreases keys.len(),
{
    if keys.len() == 0 {
        Seq::empty()
    } else if keys.len() == 1 {
        assignment(variable, keys[0])
    } else {
        set_clause(variable, keys.drop_last()) + ", "@ + assignment(variable, keys.last())
    }
}

/// The keys of the entries of a property object, in order.
pub open spec fn keys_of(entries: Seq<(Seq<char>, JsonEntryModel)>) -> Seq<Seq<char>> {
    Seq::new(entries.len(), |i: int| entries[i].0)
}

/// The query that finds the nodes of a label, at most `limit` of them; with
/// a filter, those whose property equals the bound value `val`.
pub open spec fn find_nodes_query(
    label: Seq<char>,
    filter: Option<(Seq<char>, Seq<char>)>,
    limit: nat,
) -> QueryModel {
    match filter {
        Some((property, value)) => QueryModel {
            text: "MATCH (n:"@ + quoted(label) + ") WHERE n."@ + quoted(property)
                + " = $val RETURN n LIMIT "@ + decimal(limit),
            params: seq![("val"@, ParamModel::Text(value))],
        },
        None => QueryModel {
            text: "MATCH (n:"@ + quoted(label) + ") RETURN n LIMIT "@ + decimal(limit),
            params: Seq::empty(),
        },
    }
}

/// The query that reads one node, by its internal id or by an element id
/// equal to the id's text.
pub open spec fn get_node_query(id: i64) -> QueryModel {
    QueryModel {
        text: "MATCH (n) WHERE elementId(n) = toString($id) OR id(n) = $id RETURN n"@,
        params: seq![("id"@, ParamModel::Integer(id))],
    }
}

/// The query that creates a node of a label with the given properties. It
/// has a SET clause unless there is no property.
pub open spec fn create_node_query(
    label: Seq<char>,
    entries: Seq<(Seq<char>, JsonEntryModel)>,
) -> QueryModel {
    QueryModel {
        text: if entries.len() == 0 {
            "CREATE (n:"@ + quoted(label) + ") RETURN n"@
        } else {
            "CREATE (n:"@ + quoted(label) + ") SET "@ + set_clause("n"@, keys_of(entries))
                + " RETURN n"@
        },
        params: property_params(entries),
    }
}

/// The query that sets the given properties on the node with an id. It has
/// a SET clause unless there is no property.
pub open spec fn update_node_query(
    id: i64,
    entries: Seq<(Seq<char>, JsonEntryModel)>,
) -> QueryModel {
    QueryModel {
        text: if entries.len() == 0 {
            "MATCH (n) WHERE id(n) = $id RETURN n"@
        } else {
            "MATCH (n) WHERE id(n) = $id SET "@ + set_clause("n"@, keys_of(entries))
                + " RETURN n"@
        },
        params: seq![("id"@, ParamModel::Integer(id))] + property_params(entries),
    }
}

/// The query that deletes the node with an id and returns how many nodes it
/// deleted; with `detach`, it deletes the node's relationships too.
pub open spec fn delete_node_query(id: i64, detach: bool) -> QueryModel {
    QueryModel {
        text: if detach {
            "MATCH (n) WHERE id(n) = $id DETACH DELETE n RETURN count(n) AS deleted"@
        } else {
            "MATCH (n) WHERE id(n) = $id DELETE n RETURN count(n) AS deleted"@
        },
        params: seq![("id"@, ParamModel::Integer(id))],
    }
}

/// The pattern of the relationship in a query that finds relationships.
pub open spec fn relationship_pattern(rel_type: Option<Seq<char>>) -> Seq<char> {
    match rel_type {
        Some(t) => "[r:"@ + quoted(t) + "]"@,
        None => "[r]"@,
    }
}

/// The condition on the end points in a query that finds relationships:
/// empty where neither end is given.
pub open spec fn endpoint_condition(from: Option<i64>, to: Option<i64>) -> Seq<char> {
    if from is Some && to is Some {
        " WHERE id(a) = $from_id AND id(b) = $to_id"@
    } else if from is Some {
        " WHERE id(a) = $from_id"@
    } else if to is Some {
        " WHERE id(b) = $to_id"@
    } else {
        Seq::empty()
    }
}

/// The bindings of the end points that are given, the source first.
pub open spec fn endpoint_params(from: Option<i64>, to: Option<i64>) -> Seq<
    (Seq<char>, ParamModel),
> {
    let source = match from {
        Some(id) => seq![("from_id"@, ParamModel::Integer(id))],
        None => Seq::empty(),
    };
    let target = match to {
        Some(id) => seq![("to_id"@, ParamModel::Integer(id))],
        None => Seq::empty(),
    };
    source + target
}

/// The query that finds relationships, at most `limit` of them, of a type
/// and between end points as far as they are given.
pub open spec fn find_relationships_query(
    from: Option<i64>,
    to: Option<i64>,
    rel_type: Option<Seq<char>>,
    limit: nat,
) -> QueryModel {
    QueryModel {
        text: "MATCH (a)-"@ + relationship_pattern(rel_type) + "->(b)"@ + endpoint_condition(
            from,
            to,
        ) + " RETURN r, id(a) AS from_id, id(b) AS to_id LIMIT "@ + decimal(limit),
        params: endpoint_params(from, to),
    }
}

/// The query that creates a relationship of a type between two nodes. It
/// has a SET clause where there is a property object that is not empty.
pub open spec fn create_relationship_query(
    from: i64,
    to: i64,
    rel_type: Seq<char>,
    entries: Option<Seq<(Seq<char>, JsonEntryModel)>>,
) -> QueryModel {
    let head = "MATCH (a), (b) WHERE id(a) = $from_id AND id(b) = $to_id CREATE (a)-[r:"@ + quoted(
        rel_type,
    ) + "]->(b)"@;
    let ends = seq![("from_id"@, ParamModel::Integer(from)), ("to_id"@, ParamModel::Integer(to))];
    match entries {
        Some(e) => QueryModel {
            text: if e.len() == 0 {
                head + " RETURN r"@
            } else {
                head + " SET "@ + set_clause("r"@, keys_of(e)) + " RETURN r"@
            },
            params: ends + property_params(e),
        },
        None => QueryModel { text: head + " RETURN r"@, params: ends },
    }
}

/// The query that deletes the relationship with an id and returns how many
/// relationships it deleted.
pub open spec fn delete_relationship_query(id: i64) -> QueryModel {
    QueryModel {
        text: "MATCH ()-[r]->() WHERE id(r) = $id DELETE r RETURN count(r) AS deleted"@,
        params: seq![("id"@, ParamModel::Integer(id))],
    }
}

/// A query that the caller wrote, with the caller's parameters.
pub open spec fn raw_query(
    text: Seq<char>,
    entries: Option<Seq<(Seq<char>, JsonEntryModel)>>,
) -> QueryModel {
    QueryModel {
        text: text,
        params: match entries {
            Some(e) => property_params(e),
            None => Seq::empty(),
        },
    }
}

/// The type under which a JSON value is bound.
pub fn infer_param(value: JsonEntry) -> (param: Param)
    ensures
        param@ == inferred(value@),
{
    match value {
        JsonEntry::String(s) => Param::Text(s),
        JsonEntry::Number { integer, number } => match integer {
            Some(i) => Param::Integer(i),
            None => Param::Float(number),
        },
        JsonEntry::Bool(b) => Param::Boolean(b),
        JsonEntry::Null(t) => Param::Text(t),
        JsonEntry::Array(t) => Param::Text(t),
        JsonEntry::Object(t) => Param::Text(t),
    }
}

/// Appends `identifier`, escaped, between backticks.
fn append_quoted(text: &mut String, identifier: &str)
    ensures
        final(text)@ == old(text)@ + quoted(identifier@),
{
    text.append("`");
    let ghost opened = text@;
    let n = identifier.unicode_len();
    let mut i: usize = 0;
    assert(identifier@.take(0) =~= Seq::empty());
    assert(text@ =~= opened + escaped(identifier@.take(0)));
    while i < n
        invariant
            n == identifier@.len(),
            i <= n,
            text@ == opened + escaped(identifier@.take(i as int)),
        decreases n - i,
    {
        let ghost before = text@;
        let ghost longer = identifier@.take(i + 1);
        assert(longer.drop_last() =~= identifier@.take(i as int));
        assert(longer.last() == identifier@[i as int]);
        if identifier.get_char(i) == '`' {
            text.append("``");
            assert(text@ =~= opened + escaped(longer));
        } else {
            text.append(identifier.substring_char(i, i + 1));
            assert(identifier@.subrange(i as int, i + 1) =~= seq![identifier@[i as int]]);
            assert(text@ =~= opened + escaped(longer));
        }
        i = i + 1;
    }
    assert(identifier@.take(n as int) =~= identifier@);
    text.append("`");
    assert(text@ =~= old(text)@ + quoted(identifier@));
}

/// Appends the assignment of the parameter `key` to the property `key`.
fn append_assignment(text: &mut String, variable: &str, key: &str)
    ensures
        final(text)@ == old(text)@ + assignment(variable@, key@),
{
    text.append(variable);
    text.append(".");
    append_quoted(text, key);
    text.append(" = $");
    append_quoted(text, key);
    assert(text@ =~= old(text)@ + assignment(variable@, key@));
}

/// The SET clause for the keys of `entries`.
fn set_clause_text(variable: &str, entries: &Vec<(String, JsonEntry)>) -> (clause: String)
    ensures
        clause@ == set_clause(variable@, keys_of(entries_model(entries@))),
{
    let ghost keys = keys_of(entries_model(entries@));
    let mut clause = String::new();
    let mut i: usize = 0;
    while i < entries.len()
        invariant
            i <= entries@.len(),
            keys == keys_of(entries_model(entries@)),
            clause@ == set_clause(variable@, keys.take(i as int)),
        decreases entries@.len() - i,
    {
        if i > 0 {
            clause.append(", ");
        }
        append_assignment(&mut clause, variable, entries[i].0.as_str());
        proof {
            let longer = keys.take(i + 1);
            assert(longer.drop_last() =~= keys.take(i as int));
            assert(longer.last() == entries@[i as int].0@);
            if i == 0 {
                assert(clause@ =~= assignment(variable@, longer[0]));
            } else {
                assert(clause@ =~= set_clause(variable@, keys.take(i as int)) + ", "@
                    + assignment(variable@, longer.last()));
            }
        }
        i = i + 1;
    }
    assert(keys.take(i as int) =~= keys);
    clause
}

/// Binds every property of `entries` under its key, after what is bound
/// already.
fn bind_properties(params: &mut Vec<(String, Param)>, entries: Vec<(String, JsonEntry)>)
    ensures
        params_model(final(params)@) == params_model(old(params)@) + property_params(
            entries_model(entries@),
        ),
{
    let ghost before = params_model(params@);
    let ghost given = entries@;
    let ghost all = entries_model(entries@);
    let n = entries.len();
    let mut back = reversed(entries);
    let mut done: usize = 0;
    assert(params_model(params@) =~= before + property_params(all.take(0)));
    while done < n
        invariant
            n == given.len(),
            all == entries_model(given),
            done <= n,
            back@.len() == n - done,
            forall|j: int| 0 <= j < back@.len() ==> back@[j] == given[n - 1 - j],
            params_model(params@) == before + property_params(all.take(done as int)),
        decreases n - done,
    {
        let ghost bound = params_model(params@);
        let (key, value) = back.pop().unwrap();
        let param = infer_param(value);
        params.push((key, param));
        assert(params_model(params@) =~= bound.push((all[done as int].0, inferred(all[done as int].1))));
        assert(property_params(all.take(done + 1)) =~= property_params(all.take(done as int)).push(
            (all[done as int].0, inferred(all[done as int].1)),
        ));
        assert(params_model(params@) =~= before + property_params(all.take(done + 1)));
        done = done + 1;
    }
    assert(all.take(n as int) =~= all);
}

/// Compiles the search for the nodes of a label.
pub fn compile_find_nodes(label: &str, filter: Option<(String, String)>, limit: usize) -> (query:
    QueryRequest)
    ensures
        query@ == find_nodes_query(
            label@,
            match filter {
                Some((property, value)) => Some((property@, value@)),
                None => None,
            },
            limit as nat,
        ),
{
    let mut text = String::from_str("MATCH (n:");
    append_quoted(&mut text, label);
    let mut params: Vec<(String, Param)> = Vec::new();
    match filter {
        Some((property, value)) => {
            text.append(") WHERE n.");
            append_quoted(&mut text, property.as_str());
            text.append(" = $val RETURN n LIMIT ");
            text.append(unsigned_text(limit as u64).as_str());
            params.push((String::from_str("val"), Param::Text(value)));
            assert(params_model(params@) =~= seq![("val"@, ParamModel::Text(value@))]);
        },
        None => {
            text.append(") RETURN n LIMIT ");
            text.append(unsigned_text(limit as u64).as_str());
            assert(params_model(params@) =~= Seq::empty());
        },
    }
    QueryRequest { text, params }
}

/// The one binding of an id under a name.
fn id_binding(name: &str, id: i64) -> (params: Vec<(String, Param)>)
    ensures
        params_model(params@) == seq![(name@, ParamModel::Integer(id))],
{
    let mut params: Vec<(String, Param)> = Vec::new();
    params.push((String::from_str(name), Param::Integer(id)));
    assert(params_model(params@) =~= seq![(name@, ParamModel::Integer(id))]);
    params
}

/// Compiles the read of one node.
pub fn compile_get_node(id: i64) -> (query: QueryRequest)
    ensures
        query@ == get_node_query(id),
{
    QueryRequest {
        text: String::from_str(
            "MATCH (n) WHERE elementId(n) = toString($id) OR id(n) = $id RETURN n",
        ),
        params: id_binding("id", id),
    }
}

/// Compiles the creation of a node.
pub fn compile_create_node(label: &str, entries: Vec<(String, JsonEntry)>) -> (query:
    QueryRequest)
    ensures
        query@ == create_node_query(label@, entries_model(entries@)),
{
    let mut text = String::from_str("CREATE (n:");
    append_quoted(&mut text, label);
    if entries.len() == 0 {
        text.append(") RETURN n");
    } else {
        text.append(") SET ");
        text.append(set_clause_text("n", &entries).as_str());
        text.append(" RETURN n");
    }
    let mut params: Vec<(String, Param)> = Vec::new();
    assert(params_model(params@) =~= Seq::empty());
    bind_properties(&mut params, entries);
    assert(params_model(params@) =~= property_params(entries_model(entries@)));
    QueryRequest { text, params }
}

/// Compiles the update of a node's properties.
pub fn compile_update_node(id: i64, entries: Vec<(String, JsonEntry)>) -> (query:
    QueryRequest)
    ensures
        query@ == update_node_query(id, entries_model(entries@)),
{
    let text = if entries.len() == 0 {
        String::from_str("MATCH (n) WHERE id(n) = $id RETURN n")
    } else {
        let mut text = String::from_str("MATCH (n) WHERE id(n) = $id SET ");
        text.append(set_clause_text("n", &entries).as_str());
        text.append(" RETURN n");
        text
    };
    let mut params = id_binding("id", id);
    bind_properties(&mut params, entries);
    QueryRequest { text, params }
}

/// Compiles the deletion of a node.
pub fn compile_delete_node(id: i64, detach: bool) -> (query: QueryRequest)
    ensures
        query@ == delete_node_query(id, detach),
{
    let text = if detach {
        String::from_str("MATCH (n) WHERE id(n) = $id DETACH DELETE n RETURN count(n) AS deleted")
    } else {
        String::from_str("MATCH (n) WHERE id(n) = $id DELETE n RETURN count(n) AS deleted")
    };
    QueryRequest { text, params: id_binding("id", id) }
}

/// Compiles the search for relationships.
pub fn compile_find_relationships(
    from: Option<i64>,
    to: Option<i64>,
    rel_type: Option<&str>,
    limit: usize,
) -> (query: QueryRequest)
    ensures
        query@ == find_relationships_query(
            from,
            to,
            match rel_type {
                Some(t) => Some(t@),
                None => None,
            },
            limit as nat,
        ),
{
    let mut text = String::from_str("MATCH (a)-");
    match rel_type {
        Some(t) => {
            let ghost before = text@;
            text.append("[r:");
            append_quoted(&mut text, t);
            text.append("]");
            assert(text@ =~= before + ("[r:"@ + quoted(t@) + "]"@));
        },
        None => {
            text.append("[r]");
        },
    }
    text.append("->(b)");
    let ghost headed = text@;
    if from.is_some() && to.is_some() {
        text.append(" WHERE id(a) = $from_id AND id(b) = $to_id");
    } else if from.is_some() {
        text.append(" WHERE id(a) = $from_id");
    } else if to.is_some() {
        text.append(" WHERE id(b) = $to_id");
    }
    assert(text@ =~= headed + endpoint_condition(from, to));
    text.append(" RETURN r, id(a) AS from_id, id(b) AS to_id LIMIT ");
    text.append(unsigned_text(limit as u64).as_str());
    let mut params: Vec<(String, Param)> = Vec::new();
    if let Some(id) = from {
        params.push((String::from_str("from_id"), Param::Integer(id)));
    }
    if let Some(id) = to {
        params.push((String::from_str("to_id"), Param::Integer(id)));
    }
    assert(params_model(params@) =~= endpoint_params(from, to));
    QueryRequest { text, params }
}

/// Compiles the creation of a relationship.
pub fn compile_create_relationship(
    from: i64,
    to: i64,
    rel_type: &str,
    entries: Option<Vec<(String, JsonEntry)>>,
) -> (query: QueryRequest)
    ensures
        query@ == create_relationship_query(
            from,
            to,
            rel_type@,
            match entries {
                Some(e) => Some(entries_model(e@)),
                None => None,
            },
        ),
{
    let mut text = String::from_str(
        "MATCH (a), (b) WHERE id(a) = $from_id AND id(b) = $to_id CREATE (a)-[r:",
    );
    append_quoted(&mut text, rel_type);
    text.append("]->(b)");
    let mut params: Vec<(String, Param)> = Vec::new();
    params.push((String::from_str("from_id"), Param::Integer(from)));
    params.push((String::from_str("to_id"), Param::Integer(to)));
    assert(params_model(params@) =~= seq![
        ("from_id"@, ParamModel::Integer(from)),
        ("to_id"@, ParamModel::Integer(to)),
    ]);
    match entries {
        Some(e) => {
            if e.len() == 0 {
                text.append(" RETURN r");
            } else {
                text.append(" SET ");
                text.append(set_clause_text("r", &e).as_str());
                text.append(" RETURN r");
            }
            bind_properties(&mut params, e);
        },
        None => {
            text.append(" RETURN r");
        },
    }
    QueryRequest { text, params }
}

/// Compiles the deletion of a relationship.
pub fn compile_delete_relationship(id: i64) -> (query: QueryRequest)
    ensures
        query@ == delete_relationship_query(id),
{
    QueryRequest {
        text: String::from_str(
            "MATCH ()-[r]->() WHERE id(r) = $id DELETE r RETURN count(r) AS deleted",
        ),
        params: id_binding("id", id),
    }
}

/// Compiles a query that the caller wrote: the text as it is, and one
/// binding for each parameter of the caller's object.
pub fn compile_raw_query(text: &str, entries: Option<Vec<(String, JsonEntry)>>) -> (query:
    QueryRequest)
    ensures
        query@ == raw_query(
            text@,
            match entries {
                Some(e) => Some(entries_model(e@)),
                None => None,
            },
        ),
{
    let mut params: Vec<(String, Param)> = Vec::new();
    assert(params_model(params@) =~= Seq::empty());
    match entries {
        Some(e) => {
            bind_properties(&mut params, e);
            assert(params_model(params@) =~= property_params(entries_model(e@)));
        },
        None => {},
    }
    QueryRequest { text: String::from_str(text), params }
}

/// A query without parameters.
pub fn fixed_query(text: &str) -> (query: QueryRequest)
    ensures
        query@ == (QueryModel { text: text@, params: Seq::empty() }),
{
    let params: Vec<(String, Param)> = Vec::new();
    assert(params_model(params@) =~= Seq::empty());
    QueryRequest { text: String::from_str(text), params }
}

} // verus!
