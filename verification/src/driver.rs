//! What this library reads from the values that the graph driver hands out:
//! failures, nodes, relationships and rows.
//!
//! A node, a relationship, a path and a row are collections of the driver.
//! What a read of the driver returns is given a name, and the function that
//! makes the read claims only that it returns what the name stands for: that
//! a read depends on the value that is read, and on nothing else. Those
//! functions are not proved; all others here are.
//!
//! The typed reads are made on the node, the relationship or the row itself.
//! The driver gives up on a value of date and time that is out of range: an
//! integer read on a date-time whose nanoseconds do not fit, a text read on
//! a time of day that is none. So before an integer or a text is asked for,
//! the value is taken as the driver decodes it again, and the text that the
//! driver writes of it for inspection is searched for such a value. A read
//! is left out only where it would give up, or where the value cannot be
//! looked at, and then it gives nothing.

use crate::shape::{every_risk, risks_of, shape_risks, Risks};
use crate::text::texts_model;
use vstd::prelude::*;
use vstd::string::*;

verus! {

/// `neo4rs::Error`: a failure of the driver. Nothing of it is read here but
/// its description.
#[verifier::external_type_specification]
#[verifier::external_body]
pub struct ExDriverError(neo4rs::Error);

/// `neo4rs::Config`: the driver's configuration of a connection. It is made
/// here and handed on to whoever connects.
#[verifier::external_type_specification]
#[verifier::external_body]
pub struct ExDriverConfig(neo4rs::Config);

/// `neo4rs::BoltType`: one value of the driver, of any of its types.
#[verifier::external_type_specification]
#[verifier::external_body]
pub struct ExDriverValue(neo4rs::BoltType);

/// `neo4rs::Node`: a node as the driver decoded it.
#[verifier::external_type_specification]
#[verifier::external_body]
pub struct ExDriverNode(neo4rs::Node);

/// `neo4rs::Relation`: a relationship as the driver decoded it.
#[verifier::external_type_specification]
#[verifier::external_body]
pub struct ExDriverRelation(neo4rs::Relation);

/// `neo4rs::UnboundedRelation`: a relationship within a path, without its
/// two ends.
#[verifier::external_type_specification]
#[verifier::external_body]
pub struct ExDriverUnboundedRelation(neo4rs::UnboundedRelation);

/// `neo4rs::Path`: nodes and the relationships between them, in order.
#[verifier::external_type_specification]
#[verifier::external_body]
pub struct ExDriverPath(neo4rs::Path);

/// `neo4rs::Row`: one row of an answer, with a value for each column.
#[verifier::external_type_specification]
#[verifier::external_body]
pub struct ExDriverRow(neo4rs::Row);

/// The typed reads of one property that hold a single value. Each field is
/// what the driver gives when the property is asked for under that type.
#[derive(Debug, PartialEq)]
pub struct ScalarReads {
    pub integer: Option<i64>,
    pub float: Option<neo4rs::BoltFloat>,
    pub boolean: Option<bool>,
    pub text: Option<String>,
}

/// The typed reads of one property of a node: the single values, and the two
/// kinds of list that are asked for.
#[derive(Debug, PartialEq)]
pub struct PropertyReads {
    pub scalars: ScalarReads,
    pub texts: Option<Vec<String>>,
    pub integers: Option<Vec<i64>>,
}

/// The description that the driver gives of a failure.
pub uninterp spec fn driver_error_text(error: neo4rs::Error) -> Seq<char>;

/// The configuration that the driver builds from an address, a user, a
/// password and the name of a database.
pub uninterp spec fn driver_configuration(
    uri: Seq<char>,
    user: Seq<char>,
    password: Seq<char>,
    database: Seq<char>,
) -> neo4rs::Config;

/// The internal id that a node holds.
pub uninterp spec fn node_identity(node: neo4rs::Node) -> i64;

/// The keys under which a node holds properties.
pub uninterp spec fn node_key_set(node: neo4rs::Node) -> Option<Set<Seq<char>>>;

/// The internal id that a relationship holds.
pub uninterp spec fn relation_identity(relation: neo4rs::Relation) -> i64;

/// The internal id of the node that a relationship starts at.
pub uninterp spec fn relation_start_identity(relation: neo4rs::Relation) -> i64;

/// The internal id of the node that a relationship ends at.
pub uninterp spec fn relation_end_identity(relation: neo4rs::Relation) -> i64;

/// The type that a relationship holds.
pub uninterp spec fn relation_type_text(relation: neo4rs::Relation) -> Option<Seq<char>>;

/// The keys under which a relationship holds properties.
pub uninterp spec fn relation_key_set(relation: neo4rs::Relation) -> Option<Set<Seq<char>>>;

/// The internal id that a relationship of a path holds.
pub uninterp spec fn unbounded_identity(relation: neo4rs::UnboundedRelation) -> i64;

/// The type that a relationship of a path holds.
pub uninterp spec fn unbounded_type_text(relation: neo4rs::UnboundedRelation) -> Option<
    Seq<char>,
>;

/// The keys under which a relationship of a path holds properties.
pub uninterp spec fn unbounded_key_set(relation: neo4rs::UnboundedRelation) -> Option<
    Set<Seq<char>>,
>;

/// The nodes that a path holds, in order, where all of them can be read.
pub uninterp spec fn path_node_list(path: neo4rs::Path) -> Option<Seq<neo4rs::Node>>;

/// The relationships that a path holds, in order, where all of them can be
/// read.
pub uninterp spec fn path_relationship_list(path: neo4rs::Path) -> Option<
    Seq<neo4rs::UnboundedRelation>,
>;

/// What a row gives for a column that is asked for as a node: the node, or
/// the driver's description of why it gives none.
pub uninterp spec fn row_node_of(row: neo4rs::Row, column: Seq<char>) -> Result<
    neo4rs::Node,
    Seq<char>,
>;

/// What a row gives for a column that is asked for as a relationship: the
/// relationship, or the driver's description of why it gives none.
pub uninterp spec fn row_relation_of(row: neo4rs::Row, column: Seq<char>) -> Result<
    neo4rs::Relation,
    Seq<char>,
>;

/// The JSON document that a row decodes to as a whole; nothing where the
/// decoding fails.
pub uninterp spec fn row_decoded_of(row: neo4rs::Row) -> Option<serde_json::Value>;

/// The reads that give up on something that a row holds.
pub uninterp spec fn row_risks_of(row: neo4rs::Row) -> Risks;

/// The reads that give up on a value, or on something that it holds.
pub uninterp spec fn value_risks_of(value: neo4rs::BoltType) -> Risks;

/// The value under a key of a node, as the driver decodes it again.
pub uninterp spec fn node_value_of(node: neo4rs::Node, key: Seq<char>) -> Option<neo4rs::BoltType>;

/// The labels of a node, each as the driver decodes it again, in order.
pub uninterp spec fn node_label_values_of(node: neo4rs::Node) -> Option<Seq<neo4rs::BoltType>>;

/// The labels that a node gives when they are asked for as texts, in order.
pub uninterp spec fn node_label_list_of(node: neo4rs::Node) -> Option<Seq<Seq<char>>>;

/// The value under a key of a relationship, as the driver decodes it again.
pub uninterp spec fn relation_value_of(relation: neo4rs::Relation, key: Seq<char>) -> Option<
    neo4rs::BoltType,
>;

/// The value under a key of a relationship of a path, as the driver decodes
/// it again.
pub uninterp spec fn unbounded_value_of(
    relation: neo4rs::UnboundedRelation,
    key: Seq<char>,
) -> Option<neo4rs::BoltType>;

/// The value in a column of a row, as the driver decodes it again.
pub uninterp spec fn row_value_of(row: neo4rs::Row, column: Seq<char>) -> Option<neo4rs::BoltType>;

/// What a node gives for a key that is asked for as an integer; nothing where
/// the read fails.
pub uninterp spec fn node_integer_of(node: neo4rs::Node, key: Seq<char>) -> Option<i64>;

/// What a node gives for a key that is asked for as a float; nothing where
/// the read fails.
pub uninterp spec fn node_float_of(node: neo4rs::Node, key: Seq<char>) -> Option<neo4rs::BoltFloat>;

/// What a node gives for a key that is asked for as a boolean; nothing where
/// the read fails.
pub uninterp spec fn node_boolean_of(node: neo4rs::Node, key: Seq<char>) -> Option<bool>;

/// What a node gives for a key that is asked for as text; nothing where the
/// read fails.
pub uninterp spec fn node_text_of(node: neo4rs::Node, key: Seq<char>) -> Option<String>;

/// What a node gives for a key that is asked for as a list of texts; nothing
/// where the read fails.
pub uninterp spec fn node_texts_of(node: neo4rs::Node, key: Seq<char>) -> Option<Vec<String>>;

/// What a node gives for a key that is asked for as a list of integers;
/// nothing where the read fails.
pub uninterp spec fn node_integers_of(node: neo4rs::Node, key: Seq<char>) -> Option<Vec<i64>>;

/// What a relationship gives for a key that is asked for as an integer;
/// nothing where the read fails.
pub uninterp spec fn relation_integer_of(relation: neo4rs::Relation, key: Seq<char>) -> Option<i64>;

/// What a relationship gives for a key that is asked for as a float; nothing
/// where the read fails.
pub uninterp spec fn relation_float_of(relation: neo4rs::Relation, key: Seq<char>) -> Option<neo4rs::BoltFloat>;

/// What a relationship gives for a key that is asked for as a boolean;
/// nothing where the read fails.
pub uninterp spec fn relation_boolean_of(relation: neo4rs::Relation, key: Seq<char>) -> Option<bool>;

/// What a relationship gives for a key that is asked for as text; nothing
/// where the read fails.
pub uninterp spec fn relation_text_of(relation: neo4rs::Relation, key: Seq<char>) -> Option<String>;

/// What a relationship of a path gives for a key that is asked for as an
/// integer; nothing where the read fails.
pub uninterp spec fn unbounded_integer_of(relation: neo4rs::UnboundedRelation, key: Seq<char>) -> Option<i64>;

/// What a relationship of a path gives for a key that is asked for as a
/// float; nothing where the read fails.
pub uninterp spec fn unbounded_float_of(relation: neo4rs::UnboundedRelation, key: Seq<char>) -> Option<neo4rs::BoltFloat>;

/// What a relationship of a path gives for a key that is asked for as a
/// boolean; nothing where the read fails.
pub uninterp spec fn unbounded_boolean_of(relation: neo4rs::UnboundedRelation, key: Seq<char>) -> Option<bool>;

/// What a relationship of a path gives for a key that is asked for as text;
/// nothing where the read fails.
pub uninterp spec fn unbounded_text_of(relation: neo4rs::UnboundedRelation, key: Seq<char>) -> Option<String>;

/// What a row gives for a column that is asked for as an integer; nothing
/// where the read fails.
pub uninterp spec fn column_integer_of(row: neo4rs::Row, column: Seq<char>) -> Option<i64>;

/// What a row gives for a column that is asked for as text; nothing where the
/// read fails.
pub uninterp spec fn column_text_of(row: neo4rs::Row, column: Seq<char>) -> Option<Seq<char>>;

/// The reads that can give up on a value that may be absent. Where the
/// driver cannot decode the value again, nothing is known of it, and every
/// read is held to be at risk.
pub open spec fn risks_of_value(value: Option<neo4rs::BoltType>) -> Risks {
    match value {
        Some(v) => value_risks_of(v),
        None => every_risk(),
    }
}

/// The reads that can give up on the value under a key of a node.
pub open spec fn node_risks(node: neo4rs::Node, key: Seq<char>) -> Risks {
    risks_of_value(node_value_of(node, key))
}

/// The reads that can give up on the value under a key of a relationship.
pub open spec fn relation_risks(relation: neo4rs::Relation, key: Seq<char>) -> Risks {
    risks_of_value(relation_value_of(relation, key))
}

/// The reads that can give up on the value under a key of a relationship of
/// a path.
pub open spec fn unbounded_risks(relation: neo4rs::UnboundedRelation, key: Seq<char>) -> Risks {
    risks_of_value(unbounded_value_of(relation, key))
}

/// The reads that can give up on the value in a column of a row.
pub open spec fn column_risks(row: neo4rs::Row, column: Seq<char>) -> Risks {
    risks_of_value(row_value_of(row, column))
}

/// A text read can give up on one of the values.
pub open spec fn labels_at_risk(values: Seq<neo4rs::BoltType>) -> bool {
    exists|i: int| 0 <= i < values.len() && (#[trigger] value_risks_of(values[i])).texts
}

/// One read of a value: what the read gives, and nothing where it is at risk.
pub open spec fn unless<T>(at_risk: bool, read: Option<T>) -> Option<T> {
    if at_risk {
        None
    } else {
        read
    }
}

/// What a node gives for a key under each of the six types that are asked
/// for, in the order integer, float, boolean, text, list of texts, list of
/// integers. A read on which the driver gives up is not made, and gives
/// nothing.
pub open spec fn node_reads(node: neo4rs::Node, key: Seq<char>) -> PropertyReads {
    let risks = node_risks(node, key);
    PropertyReads {
        scalars: ScalarReads {
            integer: unless(risks.numbers, node_integer_of(node, key)),
            float: node_float_of(node, key),
            boolean: node_boolean_of(node, key),
            text: unless(risks.texts, node_text_of(node, key)),
        },
        texts: unless(risks.texts, node_texts_of(node, key)),
        integers: unless(risks.numbers, node_integers_of(node, key)),
    }
}

/// What a relationship gives for a key under each of the four types that
/// are asked for. A read on which the driver gives up is not made, and gives
/// nothing.
pub open spec fn relation_reads(relation: neo4rs::Relation, key: Seq<char>) -> ScalarReads {
    let risks = relation_risks(relation, key);
    ScalarReads {
        integer: unless(risks.numbers, relation_integer_of(relation, key)),
        float: relation_float_of(relation, key),
        boolean: relation_boolean_of(relation, key),
        text: unless(risks.texts, relation_text_of(relation, key)),
    }
}

/// What a relationship of a path gives for a key under each of the four
/// types that are asked for. A read on which the driver gives up is not
/// made, and gives nothing.
pub open spec fn unbounded_reads(relation: neo4rs::UnboundedRelation, key: Seq<char>) -> ScalarReads {
    let risks = unbounded_risks(relation, key);
    ScalarReads {
        integer: unless(risks.numbers, unbounded_integer_of(relation, key)),
        float: unbounded_float_of(relation, key),
        boolean: unbounded_boolean_of(relation, key),
        text: unless(risks.texts, unbounded_text_of(relation, key)),
    }
}

/// What a row gives for a column that is asked for as an integer; nothing
/// where the driver gives up on the read.
pub open spec fn row_integer_of(row: neo4rs::Row, column: Seq<char>) -> Option<i64> {
    unless(column_risks(row, column).numbers, column_integer_of(row, column))
}

/// What a row gives for a column that is asked for as text; nothing where the
/// driver gives up on the read.
pub open spec fn row_text_of(row: neo4rs::Row, column: Seq<char>) -> Option<Seq<char>> {
    unless(column_risks(row, column).texts, column_text_of(row, column))
}

/// The labels that a node gives, in order; nothing where the driver gives up
/// on the read.
pub open spec fn node_label_texts(node: neo4rs::Node) -> Option<Seq<Seq<char>>> {
    match node_label_values_of(node) {
        Some(values) => unless(labels_at_risk(values), node_label_list_of(node)),
        None => None,
    }
}

/// The JSON document that a row decodes to as a whole; nothing where the
/// driver gives up on the decoding.
pub open spec fn row_document_of(row: neo4rs::Row) -> Option<serde_json::Value> {
    unless(row_risks_of(row).texts, row_decoded_of(row))
}

/// The description of a driver failure: `neo4rs::Error`'s `to_string`.
/// Claimed: the text is the description of that failure, and depends on the
/// failure alone.
#[verifier::external_body]
pub(crate) fn error_text(error: &neo4rs::Error) -> (text: String)
    ensures
        text@ == driver_error_text(*error),
{
    error.to_string()
}

/// The driver's configuration for a connection, with `neo4rs::ConfigBuilder`:
/// its `uri`, `user`, `password` and `db` are set, and `build` decides.
/// Claimed: `build` succeeds, as it refuses only a builder that lacks the
/// address, the user or the password; and what it builds depends on the four
/// values alone.
#[verifier::external_body]
pub(crate) fn build_config(uri: &str, user: &str, password: &str, database: &str) -> (built:
    Result<neo4rs::Config, neo4rs::Error>)
    ensures
        built is Ok,
        built->Ok_0 == driver_configuration(uri@, user@, password@, database@),
{
    neo4rs::ConfigBuilder::default().uri(uri).user(user).password(password).db(database).build()
}

/// `neo4rs::Node::id`. Claimed: the result is the id that the node holds.
#[verifier::external_body]
pub(crate) fn node_id(node: &neo4rs::Node) -> (id: i64)
    ensures
        id == node_identity(*node),
{
    node.id()
}

/// The property keys of a node, read with `neo4rs::Node::to` as
/// `neo4rs::Keys<Vec<String>>`; `None` where that read fails. Claimed: the
/// keys are those of the node's property map, each once. Their order is that
/// in which the driver's hash map yields them, and nothing is claimed of it.
#[verifier::external_body]
pub(crate) fn node_keys(node: &neo4rs::Node) -> (keys: Option<Vec<String>>)
    ensures
        match keys {
            Some(k) => texts_model(k@).no_duplicates() && node_key_set(*node) == Some(
                texts_model(k@).to_set(),
            ),
            None => node_key_set(*node) is None,
        },
{
    node.to::<neo4rs::Keys<Vec<String>>>().ok().map(|keys| keys.0)
}

/// `neo4rs::Relation::id`. Claimed: the result is the id that the
/// relationship holds.
#[verifier::external_body]
pub(crate) fn relation_id(relation: &neo4rs::Relation) -> (id: i64)
    ensures
        id == relation_identity(*relation),
{
    relation.id()
}

/// `neo4rs::Relation::start_node_id`. Claimed: the result is the start id
/// that the relationship holds.
#[verifier::external_body]
pub(crate) fn relation_start(relation: &neo4rs::Relation) -> (id: i64)
    ensures
        id == relation_start_identity(*relation),
{
    relation.start_node_id()
}

/// `neo4rs::Relation::end_node_id`. Claimed: the result is the end id that
/// the relationship holds.
#[verifier::external_body]
pub(crate) fn relation_end(relation: &neo4rs::Relation) -> (id: i64)
    ensures
        id == relation_end_identity(*relation),
{
    relation.end_node_id()
}

/// The type of a relationship, read with `neo4rs::Relation::to` as
/// `neo4rs::Type<String>`; `None` where that read fails. Claimed: the result
/// is the type that the relationship holds.
#[verifier::external_body]
pub(crate) fn relation_type(relation: &neo4rs::Relation) -> (name: Option<String>)
    ensures
        match name {
            Some(t) => relation_type_text(*relation) == Some(t@),
            None => relation_type_text(*relation) is None,
        },
{
    relation.to::<neo4rs::Type<String>>().ok().map(|name| name.0)
}

/// The property keys of a relationship, read with `neo4rs::Relation::to` as
/// `neo4rs::Keys<Vec<String>>`; `None` where that read fails. Claimed: the
/// keys are those of the relationship's property map, each once. Nothing is
/// claimed of their order.
#[verifier::external_body]
pub(crate) fn relation_keys(relation: &neo4rs::Relation) -> (keys: Option<Vec<String>>)
    ensures
        match keys {
            Some(k) => texts_model(k@).no_duplicates() && relation_key_set(*relation) == Some(
                texts_model(k@).to_set(),
            ),
            None => relation_key_set(*relation) is None,
        },
{
    relation.to::<neo4rs::Keys<Vec<String>>>().ok().map(|keys| keys.0)
}

/// `neo4rs::UnboundedRelation::id`. Claimed: the result is the id that the
/// relationship holds.
#[verifier::external_body]
pub(crate) fn unbounded_id(relation: &neo4rs::UnboundedRelation) -> (id: i64)
    ensures
        id == unbounded_identity(*relation),
{
    relation.id()
}

/// The type of a relationship of a path, read with
/// `neo4rs::UnboundedRelation::to` as `neo4rs::Type<String>`; `None` where
/// that read fails. Claimed: the result is the type that the relationship
/// holds.
#[verifier::external_body]
pub(crate) fn unbounded_type(relation: &neo4rs::UnboundedRelation) -> (name: Option<String>)
    ensures
        match name {
            Some(t) => unbounded_type_text(*relation) == Some(t@),
            None => unbounded_type_text(*relation) is None,
        },
{
    relation.to::<neo4rs::Type<String>>().ok().map(|name| name.0)
}

/// The property keys of a relationship of a path, read with
/// `neo4rs::UnboundedRelation::to` as `neo4rs::Keys<Vec<String>>`; `None`
/// where that read fails. Claimed: the keys are those of the relationship's
/// property map, each once. Nothing is claimed of their order.
#[verifier::external_body]
pub(crate) fn unbounded_keys(relation: &neo4rs::UnboundedRelation) -> (keys: Option<
    Vec<String>,
>)
    ensures
        match keys {
            Some(k) => texts_model(k@).no_duplicates() && unbounded_key_set(*relation) == Some(
                texts_model(k@).to_set(),
            ),
            None => unbounded_key_set(*relation) is None,
        },
{
    relation.to::<neo4rs::Keys<Vec<String>>>().ok().map(|keys| keys.0)
}

/// The nodes of a path, with `neo4rs::Path::nodes_as` for `neo4rs::Node`;
/// `None` where that read fails. Claimed: the result is what the path holds
/// as nodes.
#[verifier::external_body]
pub(crate) fn path_nodes(path: &neo4rs::Path) -> (nodes: Option<Vec<neo4rs::Node>>)
    ensures
        match nodes {
            Some(n) => path_node_list(*path) == Some(n@),
            None => path_node_list(*path) is None,
        },
{
    path.nodes_as::<neo4rs::Node>().ok()
}

/// The relationships of a path, with `neo4rs::Path::relationships_as` for
/// `neo4rs::UnboundedRelation`; `None` where that read fails. Claimed: the
/// result is what the path holds as relationships.
#[verifier::external_body]
pub(crate) fn path_relationships(path: &neo4rs::Path) -> (relationships: Option<
    Vec<neo4rs::UnboundedRelation>,
>)
    ensures
        match relationships {
            Some(r) => path_relationship_list(*path) == Some(r@),
            None => path_relationship_list(*path) is None,
        },
{
    path.relationships_as::<neo4rs::UnboundedRelation>().ok()
}

/// A column of a row as a node, with `neo4rs::Row::get`; a failure is handed
/// on as the text of the `neo4rs::DeError`. Claimed: the outcome is what the
/// row gives for the column.
#[verifier::external_body]
pub(crate) fn row_node(row: &neo4rs::Row, column: &str) -> (node: Result<neo4rs::Node, String>)
    ensures
        match node {
            Ok(n) => row_node_of(*row, column@) == Ok::<neo4rs::Node, Seq<char>>(n),
            Err(why) => row_node_of(*row, column@) == Err::<neo4rs::Node, Seq<char>>(why@),
        },
{
    row.get::<neo4rs::Node>(column).map_err(|e| e.to_string())
}

/// A column of a row as a relationship, with `neo4rs::Row::get`; a failure is
/// handed on as the text of the `neo4rs::DeError`. Claimed: the outcome is
/// what the row gives for the column.
#[verifier::external_body]
pub(crate) fn row_relation(row: &neo4rs::Row, column: &str) -> (relation: Result<
    neo4rs::Relation,
    String,
>)
    ensures
        match relation {
            Ok(r) => row_relation_of(*row, column@) == Ok::<neo4rs::Relation, Seq<char>>(r),
            Err(why) => row_relation_of(*row, column@) == Err::<neo4rs::Relation, Seq<char>>(why@),
        },
{
    row.get::<neo4rs::Relation>(column).map_err(|e| e.to_string())
}

/// The text that `neo4rs::BoltType`'s derived `Debug` writes for a value. The
/// order in which the entries of a map stand in it is that of the driver's
/// hash map, and nothing is claimed of the text itself. Claimed: which reads
/// are at risk by the text is the same in whatever order the entries stand,
/// and so depends on the value alone.
#[verifier::external_body]
pub(crate) fn value_shape(value: &neo4rs::BoltType) -> (shape: String)
    ensures
        shape_risks(shape@) == value_risks_of(*value),
{
    format!("{:?}", value)
}

/// The value under a key of a node, with `neo4rs::Node::get` for
/// `neo4rs::BoltType`; `None` where that read fails. The driver decodes the
/// value again: it gives a duration back as a list of two integers, and
/// nothing for a point. Claimed: the result is that value.
#[verifier::external_body]
pub(crate) fn node_value(node: &neo4rs::Node, key: &str) -> (value: Option<neo4rs::BoltType>)
    ensures
        value == node_value_of(*node, key@),
{
    node.get::<neo4rs::BoltType>(key).ok()
}

/// The value under a key of a node as an integer, with `neo4rs::Node::get`
/// for `i64`; `None` where that read fails. The value must be known to hold
/// no date-time whose nanoseconds do not fit: the driver converts a date-time
/// to nanoseconds, and gives up on one. Claimed: the result is what the read
/// gives.
#[verifier::external_body]
pub(crate) fn node_integer(node: &neo4rs::Node, key: &str) -> (read: Option<i64>)
    requires
        !node_risks(*node, key@).numbers,
    ensures
        read == node_integer_of(*node, key@),
{
    node.get::<i64>(key).ok()
}

/// The value under a key of a node as a float, with `neo4rs::Node::get` for
/// `neo4rs::BoltFloat`; `None` where that read fails. Claimed: the result is
/// what the read gives.
#[verifier::external_body]
pub(crate) fn node_float(node: &neo4rs::Node, key: &str) -> (read: Option<neo4rs::BoltFloat>)
    ensures
        read == node_float_of(*node, key@),
{
    node.get::<neo4rs::BoltFloat>(key).ok()
}

/// The value under a key of a node as a boolean, with `neo4rs::Node::get` for
/// `bool`; `None` where that read fails. Claimed: the result is what the read
/// gives.
#[verifier::external_body]
pub(crate) fn node_boolean(node: &neo4rs::Node, key: &str) -> (read: Option<bool>)
    ensures
        read == node_boolean_of(*node, key@),
{
    node.get::<bool>(key).ok()
}

/// The value under a key of a node as text, with `neo4rs::Node::get` for
/// `String`; `None` where that read fails. The value must be known to hold no
/// time of day that is out of range: the driver renders a time of day as
/// text, and gives up on one. Claimed: the result is what the read gives.
#[verifier::external_body]
pub(crate) fn node_text(node: &neo4rs::Node, key: &str) -> (read: Option<String>)
    requires
        !node_risks(*node, key@).texts,
    ensures
        read == node_text_of(*node, key@),
{
    node.get::<String>(key).ok()
}

/// The value under a key of a node as a list of texts, with
/// `neo4rs::Node::get` for `Vec<String>`; `None` where that read fails. The
/// value must be known to hold no time of day that is out of range: the
/// driver renders a time of day as text, and gives up on one. Claimed: the
/// result is what the read gives.
#[verifier::external_body]
pub(crate) fn node_texts(node: &neo4rs::Node, key: &str) -> (read: Option<Vec<String>>)
    requires
        !node_risks(*node, key@).texts,
    ensures
        read == node_texts_of(*node, key@),
{
    node.get::<Vec<String>>(key).ok()
}

/// The value under a key of a node as a list of integers, with
/// `neo4rs::Node::get` for `Vec<i64>`; `None` where that read fails. The
/// value must be known to hold no date-time whose nanoseconds do not fit: the
/// driver converts a date-time to nanoseconds, and gives up on one. Claimed:
/// the result is what the read gives.
#[verifier::external_body]
pub(crate) fn node_integers(node: &neo4rs::Node, key: &str) -> (read: Option<Vec<i64>>)
    requires
        !node_risks(*node, key@).numbers,
    ensures
        read == node_integers_of(*node, key@),
{
    node.get::<Vec<i64>>(key).ok()
}

/// The value under a key of a relationship, with `neo4rs::Relation::get` for
/// `neo4rs::BoltType`; `None` where that read fails. The driver decodes the
/// value again: it gives a duration back as a list of two integers, and
/// nothing for a point. Claimed: the result is that value.
#[verifier::external_body]
pub(crate) fn relation_value(relation: &neo4rs::Relation, key: &str) -> (value: Option<neo4rs::BoltType>)
    ensures
        value == relation_value_of(*relation, key@),
{
    relation.get::<neo4rs::BoltType>(key).ok()
}

/// The value under a key of a relationship as an integer, with
/// `neo4rs::Relation::get` for `i64`; `None` where that read fails. The value
/// must be known to hold no date-time whose nanoseconds do not fit: the
/// driver converts a date-time to nanoseconds, and gives up on one. Claimed:
/// the result is what the read gives.
#[verifier::external_body]
pub(crate) fn relation_integer(relation: &neo4rs::Relation, key: &str) -> (read: Option<i64>)
    requires
        !relation_risks(*relation, key@).numbers,
    ensures
        read == relation_integer_of(*relation, key@),
{
    relation.get::<i64>(key).ok()
}

/// The value under a key of a relationship as a float, with
/// `neo4rs::Relation::get` for `neo4rs::BoltFloat`; `None` where that read
/// fails. Claimed: the result is what the read gives.
#[verifier::external_body]
pub(crate) fn relation_float(relation: &neo4rs::Relation, key: &str) -> (read: Option<neo4rs::BoltFloat>)
    ensures
        read == relation_float_of(*relation, key@),
{
    relation.get::<neo4rs::BoltFloat>(key).ok()
}

/// The value under a key of a relationship as a boolean, with
/// `neo4rs::Relation::get` for `bool`; `None` where that read fails. Claimed:
/// the result is what the read gives.
#[verifier::external_body]
pub(crate) fn relation_boolean(relation: &neo4rs::Relation, key: &str) -> (read: Option<bool>)
    ensures
        read == relation_boolean_of(*relation, key@),
{
    relation.get::<bool>(key).ok()
}

/// The value under a key of a relationship as text, with
/// `neo4rs::Relation::get` for `String`; `None` where that read fails. The
/// value must be known to hold no time of day that is out of range: the
/// driver renders a time of day as text, and gives up on one. Claimed: the
/// result is what the read gives.
#[verifier::external_body]
pub(crate) fn relation_text(relation: &neo4rs::Relation, key: &str) -> (read: Option<String>)
    requires
        !relation_risks(*relation, key@).texts,
    ensures
        read == relation_text_of(*relation, key@),
{
    relation.get::<String>(key).ok()
}

/// The value under a key of a relationship of a path, with
/// `neo4rs::UnboundedRelation::get` for `neo4rs::BoltType`; `None` where that
/// read fails. The driver decodes the value again: it gives a duration back
/// as a list of two integers, and nothing for a point. Claimed: the result is
/// that value.
#[verifier::external_body]
pub(crate) fn unbounded_value(relation: &neo4rs::UnboundedRelation, key: &str) -> (value: Option<neo4rs::BoltType>)
    ensures
        value == unbounded_value_of(*relation, key@),
{
    relation.get::<neo4rs::BoltType>(key).ok()
}

/// The value under a key of a relationship of a path as an integer, with
/// `neo4rs::UnboundedRelation::get` for `i64`; `None` where that read fails.
/// The value must be known to hold no date-time whose nanoseconds do not fit:
/// the driver converts a date-time to nanoseconds, and gives up on one.
/// Claimed: the result is what the read gives.
#[verifier::external_body]
pub(crate) fn unbounded_integer(relation: &neo4rs::UnboundedRelation, key: &str) -> (read: Option<i64>)
    requires
        !unbounded_risks(*relation, key@).numbers,
    ensures
        read == unbounded_integer_of(*relation, key@),
{
    relation.get::<i64>(key).ok()
}

/// The value under a key of a relationship of a path as a float, with
/// `neo4rs::UnboundedRelation::get` for `neo4rs::BoltFloat`; `None` where
/// that read fails. Claimed: the result is what the read gives.
#[verifier::external_body]
pub(crate) fn unbounded_float(relation: &neo4rs::UnboundedRelation, key: &str) -> (read: Option<neo4rs::BoltFloat>)
    ensures
        read == unbounded_float_of(*relation, key@),
{
    relation.get::<neo4rs::BoltFloat>(key).ok()
}

/// The value under a key of a relationship of a path as a boolean, with
/// `neo4rs::UnboundedRelation::get` for `bool`; `None` where that read fails.
/// Claimed: the result is what the read gives.
#[verifier::external_body]
pub(crate) fn unbounded_boolean(relation: &neo4rs::UnboundedRelation, key: &str) -> (read: Option<bool>)
    ensures
        read == unbounded_boolean_of(*relation, key@),
{
    relation.get::<bool>(key).ok()
}

/// The value under a key of a relationship of a path as text, with
/// `neo4rs::UnboundedRelation::get` for `String`; `None` where that read
/// fails. The value must be known to hold no time of day that is out of
/// range: the driver renders a time of day as text, and gives up on one.
/// Claimed: the result is what the read gives.
#[verifier::external_body]
pub(crate) fn unbounded_text(relation: &neo4rs::UnboundedRelation, key: &str) -> (read: Option<String>)
    requires
        !unbounded_risks(*relation, key@).texts,
    ensures
        read == unbounded_text_of(*relation, key@),
{
    relation.get::<String>(key).ok()
}

/// The labels of a node as values, read with `neo4rs::Node::to` as
/// `neo4rs::Labels<Vec<neo4rs::BoltType>>`; `None` where that read fails.
/// Claimed: the result is the labels as the driver decodes them again.
#[verifier::external_body]
pub(crate) fn node_label_values(node: &neo4rs::Node) -> (values: Option<Vec<neo4rs::BoltType>>)
    ensures
        match values {
            Some(v) => node_label_values_of(*node) == Some(v@),
            None => node_label_values_of(*node) is None,
        },
{
    node.to::<neo4rs::Labels<Vec<neo4rs::BoltType>>>().ok().map(|labels| labels.0)
}

/// The labels of a node as texts, read with `neo4rs::Node::to` as
/// `neo4rs::Labels<Vec<String>>`; `None` where that read fails. No label may
/// hold a time of day that is out of range. Claimed: the result is what the
/// read gives.
#[verifier::external_body]
pub(crate) fn node_label_list(node: &neo4rs::Node) -> (labels: Option<Vec<String>>)
    requires
        match node_label_values_of(*node) {
            Some(v) => !labels_at_risk(v),
            None => false,
        },
    ensures
        match labels {
            Some(l) => node_label_list_of(*node) == Some(texts_model(l@)),
            None => node_label_list_of(*node) is None,
        },
{
    node.to::<neo4rs::Labels<Vec<String>>>().ok().map(|labels| labels.0)
}

/// The value in a column of a row, with `neo4rs::Row::get` for
/// `neo4rs::BoltType`; `None` where that read fails. The driver decodes the
/// value again. Claimed: the result is that value.
#[verifier::external_body]
pub(crate) fn row_value(row: &neo4rs::Row, column: &str) -> (value: Option<neo4rs::BoltType>)
    ensures
        value == row_value_of(*row, column@),
{
    row.get::<neo4rs::BoltType>(column).ok()
}

/// A column of a row as an integer, with `neo4rs::Row::get` for `i64`; `None`
/// where that read fails. The value must hold no date-time whose nanoseconds
/// do not fit. Claimed: the result is what the read gives.
#[verifier::external_body]
pub(crate) fn row_integer_read(row: &neo4rs::Row, column: &str) -> (read: Option<i64>)
    requires
        !column_risks(*row, column@).numbers,
    ensures
        read == column_integer_of(*row, column@),
{
    row.get::<i64>(column).ok()
}

/// A column of a row as text, with `neo4rs::Row::get` for `String`; `None`
/// where that read fails. The value must hold no time of day that is out of
/// range. Claimed: the result is what the read gives.
#[verifier::external_body]
pub(crate) fn row_text_read(row: &neo4rs::Row, column: &str) -> (read: Option<String>)
    requires
        !column_risks(*row, column@).texts,
    ensures
        match read {
            Some(t) => column_text_of(*row, column@) == Some(t@),
            None => column_text_of(*row, column@) is None,
        },
{
    row.get::<String>(column).ok()
}

/// The text that `neo4rs::Row`'s derived `Debug` writes for a row. Nothing is
/// claimed of the text itself, in which the columns stand in the order of the
/// driver's hash map. Claimed: which reads are at risk by the text depends on
/// the row alone.
#[verifier::external_body]
pub(crate) fn row_shape(row: &neo4rs::Row) -> (shape: String)
    ensures
        shape_risks(shape@) == row_risks_of(*row),
{
    format!("{:?}", row)
}

/// A whole row as a JSON document, with `neo4rs::Row::to`; `None` where that
/// read fails. The row must hold no time of day that is out of range, and no
/// date-time whose seconds cannot be brought to universal time: the decoding
/// renders both as text. Claimed: the result is what the row decodes to.
#[verifier::external_body]
pub(crate) fn row_document(row: &neo4rs::Row) -> (document: Option<serde_json::Value>)
    requires
        !row_risks_of(*row).texts,
    ensures
        document == row_decoded_of(*row),
{
    row.to::<serde_json::Value>().ok()
}

/// The reads that can give up on a value that may be absent.
fn value_risks(value: &Option<neo4rs::BoltType>) -> (risks: Risks)
    ensures
        risks == risks_of_value(*value),
{
    match value {
        Some(v) => {
            let shape = value_shape(v);
            risks_of(shape.as_str())
        },
        None => Risks { numbers: true, texts: true },
    }
}

/// One property of a node under each of six types.
pub(crate) fn node_property(node: &neo4rs::Node, key: &str) -> (reads: PropertyReads)
    ensures
        reads == node_reads(*node, key@),
{
    let value = node_value(node, key);
    let risks = value_risks(&value);
    let integer = if risks.numbers {
        None
    } else {
        node_integer(node, key)
    };
    let integers = if risks.numbers {
        None
    } else {
        node_integers(node, key)
    };
    let text = if risks.texts {
        None
    } else {
        node_text(node, key)
    };
    let texts = if risks.texts {
        None
    } else {
        node_texts(node, key)
    };
    PropertyReads {
        scalars: ScalarReads {
            integer,
            float: node_float(node, key),
            boolean: node_boolean(node, key),
            text,
        },
        texts,
        integers,
    }
}

/// One property of a relationship under each of four types.
pub(crate) fn relation_property(relation: &neo4rs::Relation, key: &str) -> (reads: ScalarReads)
    ensures
        reads == relation_reads(*relation, key@),
{
    let value = relation_value(relation, key);
    let risks = value_risks(&value);
    let integer = if risks.numbers {
        None
    } else {
        relation_integer(relation, key)
    };
    let text = if risks.texts {
        None
    } else {
        relation_text(relation, key)
    };
    ScalarReads {
        integer,
        float: relation_float(relation, key),
        boolean: relation_boolean(relation, key),
        text,
    }
}

/// One property of a relationship of a path under each of four types.
pub(crate) fn unbounded_property(relation: &neo4rs::UnboundedRelation, key: &str) -> (reads:
    ScalarReads)
    ensures
        reads == unbounded_reads(*relation, key@),
{
    let value = unbounded_value(relation, key);
    let risks = value_risks(&value);
    let integer = if risks.numbers {
        None
    } else {
        unbounded_integer(relation, key)
    };
    let text = if risks.texts {
        None
    } else {
        unbounded_text(relation, key)
    };
    ScalarReads {
        integer,
        float: unbounded_float(relation, key),
        boolean: unbounded_boolean(relation, key),
        text,
    }
}

/// A column of a row as an integer.
pub(crate) fn row_integer(row: &neo4rs::Row, column: &str) -> (value: Option<i64>)
    ensures
        value == row_integer_of(*row, column@),
{
    let held = row_value(row, column);
    if value_risks(&held).numbers {
        None
    } else {
        row_integer_read(row, column)
    }
}

/// A column of a row as text.
pub(crate) fn row_text(row: &neo4rs::Row, column: &str) -> (value: Option<String>)
    ensures
        match value {
            Some(t) => row_text_of(*row, column@) == Some(t@),
            None => row_text_of(*row, column@) is None,
        },
{
    let held = row_value(row, column);
    if value_risks(&held).texts {
        None
    } else {
        row_text_read(row, column)
    }
}

/// A whole row as a JSON document.
pub(crate) fn row_document_checked(row: &neo4rs::Row) -> (document: Option<serde_json::Value>)
    ensures
        document == row_document_of(*row),
{
    let shape = row_shape(row);
    if risks_of(shape.as_str()).texts {
        None
    } else {
        row_document(row)
    }
}

/// The labels of a node, in order.
pub(crate) fn node_labels(node: &neo4rs::Node) -> (labels: Option<Vec<String>>)
    ensures
        match labels {
            Some(l) => node_label_texts(*node) == Some(texts_model(l@)),
            None => node_label_texts(*node) is None,
        },
{
    let values = match node_label_values(node) {
        Some(values) => values,
        None => {
            return None;
        },
    };
    let mut i: usize = 0;
    while i < values.len()
        invariant
            i <= values@.len(),
            node_label_values_of(*node) == Some(values@),
            forall|j: int| 0 <= j < i ==> !(#[trigger] value_risks_of(values@[j])).texts,
        decreases values@.len() - i,
    {
        let shape = value_shape(&values[i]);
        if risks_of(shape.as_str()).texts {
            assert(labels_at_risk(values@));
            return None;
        }
        i = i + 1;
    }
    node_label_list(node)
}

} // verus!
