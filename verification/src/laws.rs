//! What holds of the library as a whole: a property that is written from a
//! parameter reads back as a JSON value of the same kind; no value reaches
//! the text of a query; the suggestions of a search are bounded.

use crate::commands::nodes::{find_output_of, suggested_count, MAX_ENTITY_SUGGESTIONS};
use crate::commands::node_not_found;
use crate::commands::schema::{labels_output_of, overview_output_of, types_output_of};
use crate::convert::{
    is_node_reserved, node_fields, node_object, node_property_json, node_unreserved,
    relationship_property_json, CanonicalNode, NodeRecord,
};
use crate::cypher::{
    escaped, create_node_query, create_relationship_query, delete_node_query, delete_relationship_query,
    find_nodes_query, find_relationships_query, get_node_query, inferred, keys_of, raw_query,
    update_node_query, ParamModel,
};
use crate::driver::PropertyReads;
use crate::error::message_of;
use crate::json::{strings_model, JsonEntryModel, JsonModel};
use vstd::prelude::*;

verus! {

/// The kinds of JSON value that the round trip tells apart.
#[derive(PartialEq, Eq, Structural)]
pub enum JsonKind {
    Number,
    Text,
    Boolean,
    Other,
}

/// The kind of a value as the caller wrote it.
pub open spec fn written_kind(value: JsonEntryModel) -> JsonKind {
    match value {
        JsonEntryModel::String(_) => JsonKind::Text,
        JsonEntryModel::Number { .. } => JsonKind::Number,
        JsonEntryModel::Bool(_) => JsonKind::Boolean,
        _ => JsonKind::Other,
    }
}

/// The value is a string, a number or a boolean.
pub open spec fn is_scalar_entry(value: JsonEntryModel) -> bool {
    value is String || value is Number || value is Bool
}

/// The text that renders a null, an array or an object.
pub open spec fn rendering(value: JsonEntryModel) -> Seq<char> {
    match value {
        JsonEntryModel::Null(t) => t,
        JsonEntryModel::Array(t) => t,
        JsonEntryModel::Object(t) => t,
        _ => Seq::empty(),
    }
}

/// The kind of a JSON value that the normalizer made.
pub open spec fn read_kind(value: JsonModel) -> JsonKind {
    match value {
        JsonModel::Integer(_) => JsonKind::Number,
        JsonModel::Unsigned(_) => JsonKind::Number,
        JsonModel::Float(_) => JsonKind::Number,
        JsonModel::String(_) => JsonKind::Text,
        JsonModel::Bool(_) => JsonKind::Boolean,
        _ => JsonKind::Other,
    }
}

/// What the store is taken to do with a bound parameter: the property that
/// was set from it reads under the parameter's own type, with the
/// parameter's value where the value is held here, and under none of the
/// types that are tried before that one.
pub open spec fn reads_back(param: ParamModel, reads: PropertyReads) -> bool {
    match param {
        ParamModel::Integer(i) => reads.scalars.integer == Some(i),
        ParamModel::Float(_) => reads.scalars.integer is None && reads.scalars.float is Some,
        ParamModel::Boolean(b) => reads.scalars.integer is None && reads.scalars.float is None
            && reads.scalars.boolean == Some(b),
        ParamModel::Text(s) => reads.scalars.integer is None && reads.scalars.float is None
            && reads.scalars.boolean is None && reads.scalars.text is Some
            && reads.scalars.text->0@ == s,
    }
}

/// Every JSON value is bound under the type that its kind gives: a string as
/// text, a number as an integer where it is one of 64 bits and else as a
/// float, a boolean as a boolean, and a null, an array or an object as the
/// text that renders it.
pub proof fn law_binding_follows_the_kind(value: JsonEntryModel)
    ensures
        value matches JsonEntryModel::String(s) ==> inferred(value) == ParamModel::Text(s),
        value matches JsonEntryModel::Number { integer: Some(i), .. } ==> inferred(value)
            == ParamModel::Integer(i),
        value matches JsonEntryModel::Number { integer: None, number } ==> inferred(value)
            == ParamModel::Float(number),
        value matches JsonEntryModel::Bool(b) ==> inferred(value) == ParamModel::Boolean(b),
        !is_scalar_entry(value) ==> inferred(value) == ParamModel::Text(rendering(value)),
{
}

/// The creation of a node binds one parameter for every key of the property
/// object, under that key, and names every key in its text.
pub proof fn law_create_binds_every_key(
    label: Seq<char>,
    entries: Seq<(Seq<char>, JsonEntryModel)>,
)
    ensures
        create_node_query(label, entries).params.len() == entries.len(),
        keys_of(entries).len() == entries.len(),
        forall|i: int|
            0 <= i < entries.len() ==> (#[trigger] create_node_query(label, entries).params[i])
                == (entries[i].0, inferred(entries[i].1)) && keys_of(entries)[i] == entries[i].0,
{
}

/// A string, a number or a boolean that is written as a property of a node
/// or of a relationship reads back as a JSON value of the same kind; a
/// string, an integer and a boolean read back as they were written.
pub proof fn law_scalar_round_trip(value: JsonEntryModel, reads: PropertyReads)
    requires
        is_scalar_entry(value),
        reads_back(inferred(value), reads),
    ensures
        read_kind(node_property_json(reads)) == written_kind(value),
        read_kind(relationship_property_json(reads.scalars)) == written_kind(value),
        node_property_json(reads) == relationship_property_json(reads.scalars),
        value matches JsonEntryModel::String(s) ==> node_property_json(reads) == JsonModel::String(
            s,
        ),
        value matches JsonEntryModel::Number { integer: Some(i), .. } ==> node_property_json(reads)
            == JsonModel::Integer(i),
        value matches JsonEntryModel::Bool(b) ==> node_property_json(reads) == JsonModel::Bool(b),
{
}

/// A node that is created from a property object, and that holds under each
/// key what the store keeps of the parameter bound to it, is normalized to
/// fields with the keys of the object, in order, and each string, number or
/// boolean of the object comes back as a value of its own kind.
pub proof fn law_object_round_trip(
    label: Seq<char>,
    entries: Seq<(Seq<char>, JsonEntryModel)>,
    record: NodeRecord,
)
    requires
        record.properties@.len() == entries.len(),
        forall|i: int|
            0 <= i < entries.len() ==> (#[trigger] record.properties@[i]).0@ == entries[i].0
                && reads_back(
                create_node_query(label, entries).params[i].1,
                record.properties@[i].1,
            ),
    ensures
        node_fields(record.properties@).len() == entries.len(),
        forall|i: int|
            0 <= i < entries.len() ==> (#[trigger] node_fields(record.properties@)[i]).0
                == entries[i].0 && (is_scalar_entry(entries[i].1) ==> read_kind(
                node_fields(record.properties@)[i].1,
            ) == written_kind(entries[i].1)),
{
    assert forall|i: int| 0 <= i < entries.len() implies (#[trigger] node_fields(
        record.properties@,
    )[i]).0 == entries[i].0 && (is_scalar_entry(entries[i].1) ==> read_kind(
        node_fields(record.properties@)[i].1,
    ) == written_kind(entries[i].1)) by {
        assert(record.properties@[i].0@ == entries[i].0);
        assert(create_node_query(label, entries).params[i].1 == inferred(entries[i].1));
        if is_scalar_entry(entries[i].1) {
            law_scalar_round_trip(entries[i].1, record.properties@[i].1);
        }
    }
}

/// Fields of which none has a reserved key are all kept in the JSON object
/// of a node.
pub proof fn law_own_keys_are_kept(fields: Seq<(Seq<char>, JsonModel)>)
    requires
        forall|i: int| 0 <= i < fields.len() ==> !is_node_reserved((#[trigger] fields[i]).0),
    ensures
        node_unreserved(fields) == fields,
    decreases fields.len(),
{
    if fields.len() > 0 {
        assert(!is_node_reserved(fields[fields.len() - 1].0));
        assert forall|i: int| 0 <= i < fields.drop_last().len() implies !is_node_reserved(
            (#[trigger] fields.drop_last()[i]).0,
        ) by {
            assert(fields.drop_last()[i] == fields[i]);
        }
        law_own_keys_are_kept(fields.drop_last());
        assert(node_unreserved(fields) =~= fields);
    }
}

/// The round trip reaches the JSON object of the node for every key that the
/// object does not keep for itself: where no key of the property object is
/// `_id` or `_labels`, the object of the node holds, after its two own
/// fields, one field for each key of the property object, in order. A
/// property that is written under `_id` or `_labels` does not come back.
pub proof fn law_round_trip_reaches_the_object(
    label: Seq<char>,
    entries: Seq<(Seq<char>, JsonEntryModel)>,
    record: NodeRecord,
)
    requires
        record.properties@.len() == entries.len(),
        forall|i: int|
            0 <= i < entries.len() ==> (#[trigger] record.properties@[i]).0@ == entries[i].0,
        forall|i: int| 0 <= i < entries.len() ==> !is_node_reserved((#[trigger] entries[i]).0),
    ensures
        node_object(record.id, record.labels@, node_fields(record.properties@))
            == JsonModel::Object(
            seq![
                ("_id"@, JsonModel::Integer(record.id)),
                ("_labels"@, JsonModel::Array(strings_model(record.labels@))),
            ] + node_fields(record.properties@),
        ),
        node_fields(record.properties@).len() == entries.len(),
        forall|i: int|
            0 <= i < entries.len() ==> (#[trigger] node_fields(record.properties@)[i]).0
                == entries[i].0,
{
    let fields = node_fields(record.properties@);
    assert forall|i: int| 0 <= i < fields.len() implies !is_node_reserved(
        (#[trigger] fields[i]).0,
    ) by {
        assert(record.properties@[i].0@ == entries[i].0);
        assert(!is_node_reserved(entries[i].0));
    }
    law_own_keys_are_kept(fields);
}

/// A null, an array or an object that is written as a property is bound as
/// the text of its rendering, and so reads back as a string and not as what
/// it was.
pub proof fn law_composite_is_written_as_text(value: JsonEntryModel, reads: PropertyReads)
    requires
        !is_scalar_entry(value),
        reads_back(inferred(value), reads),
    ensures
        node_property_json(reads) == JsonModel::String(rendering(value)),
        relationship_property_json(reads.scalars) == JsonModel::String(rendering(value)),
{
}

/// A property that reads only as a list is an array on a node and null on a
/// relationship.
pub proof fn law_lists_are_read_on_nodes_only(reads: PropertyReads)
    requires
        reads.scalars.integer is None,
        reads.scalars.float is None,
        reads.scalars.boolean is None,
        reads.scalars.text is None,
        reads.texts is Some || reads.integers is Some,
    ensures
        node_property_json(reads) is Array,
        relationship_property_json(reads.scalars) is Null,
{
}

/// A search suggests a read for no more than five of the nodes it found, and
/// for exactly five where it found five or more; one further suggestion
/// follows them.
pub proof fn law_find_suggestions_are_bounded(
    label: Seq<char>,
    cypher: Seq<char>,
    nodes: Seq<CanonicalNode>,
)
    ensures
        find_output_of(label, cypher, nodes).next_actions.len() == suggested_count(nodes.len())
            + 1,
        suggested_count(nodes.len()) <= MAX_ENTITY_SUGGESTIONS,
        nodes.len() >= MAX_ENTITY_SUGGESTIONS ==> suggested_count(nodes.len())
            == MAX_ENTITY_SUGGESTIONS,
        nodes.len() < MAX_ENTITY_SUGGESTIONS ==> suggested_count(nodes.len()) == nodes.len(),
{
}

/// The lists of labels and of relationship types suggest a search for no
/// more than five of what they list, and the overview for no more than five
/// labels before its two general suggestions.
pub proof fn law_schema_suggestions_are_bounded(
    labels: Seq<Seq<char>>,
    types: Seq<Seq<char>>,
    indexes: Seq<JsonModel>,
    constraints: Seq<JsonModel>,
)
    ensures
        labels_output_of(labels).next_actions.len() == suggested_count(labels.len()),
        types_output_of(types).next_actions.len() == suggested_count(types.len()),
        overview_output_of(labels, types, indexes, constraints).next_actions.len()
            == suggested_count(labels.len()) + 2,
        suggested_count(labels.len()) <= MAX_ENTITY_SUGGESTIONS,
        suggested_count(types.len()) <= MAX_ENTITY_SUGGESTIONS,
{
}

/// The message of a node that is not there ends in the id as the caller
/// wrote it.
pub proof fn law_missing_node_echoes_id(id: Seq<char>)
    ensures
        message_of(node_not_found(id)) == "Node not found: "@ + id,
        message_of(node_not_found(id)).subrange(
            "Node not found: "@.len() as int,
            message_of(node_not_found(id)).len() as int,
        ) == id,
{
    assert(("Node not found: "@ + id).subrange(
        "Node not found: "@.len() as int,
        ("Node not found: "@ + id).len() as int,
    ) =~= id);
}

/// The value of a filter never reaches the text of a search: two searches
/// that differ in the value alone have the same text, and the value is what
/// is bound.
pub proof fn law_filter_value_is_bound(
    label: Seq<char>,
    property: Seq<char>,
    first: Seq<char>,
    second: Seq<char>,
    limit: nat,
)
    ensures
        find_nodes_query(label, Some((property, first)), limit).text == find_nodes_query(
            label,
            Some((property, second)),
            limit,
        ).text,
        find_nodes_query(label, Some((property, first)), limit).params == seq![
            ("val"@, ParamModel::Text(first)),
        ],
{
}

/// The values of a property object never reach the text of a query: two
/// objects with the same keys compile to the same text, whatever their
/// values are.
pub proof fn law_property_values_are_bound(
    label: Seq<char>,
    id: i64,
    from: i64,
    to: i64,
    first: Seq<(Seq<char>, JsonEntryModel)>,
    second: Seq<(Seq<char>, JsonEntryModel)>,
)
    requires
        keys_of(first) == keys_of(second),
    ensures
        create_node_query(label, first).text == create_node_query(label, second).text,
        update_node_query(id, first).text == update_node_query(id, second).text,
        create_relationship_query(from, to, label, Some(first)).text == create_relationship_query(
            from,
            to,
            label,
            Some(second),
        ).text,
{
    assert(first.len() == keys_of(first).len());
    assert(second.len() == keys_of(second).len());
}

/// An id never reaches the text of a query: the text is the same for every
/// id, and the id is what is bound.
pub proof fn law_ids_are_bound(
    first: i64,
    second: i64,
    detach: bool,
    entries: Seq<(Seq<char>, JsonEntryModel)>,
    rel_type: Seq<char>,
)
    ensures
        get_node_query(first).text == get_node_query(second).text,
        delete_node_query(first, detach).text == delete_node_query(second, detach).text,
        update_node_query(first, entries).text == update_node_query(second, entries).text,
        delete_relationship_query(first).text == delete_relationship_query(second).text,
        create_relationship_query(first, second, rel_type, Some(entries)).text
            == create_relationship_query(second, first, rel_type, Some(entries)).text,
        find_relationships_query(Some(first), Some(second), Some(rel_type), 1).text
            == find_relationships_query(Some(second), Some(first), Some(rel_type), 1).text,
{
}

/// The parameters of a raw query never change its text.
pub proof fn law_raw_text_is_kept(text: Seq<char>, entries: Option<Seq<(Seq<char>, JsonEntryModel)>>)
    ensures
        raw_query(text, entries).text == text,
{
}

/// An identifier without a backtick is written as it is.
pub proof fn law_plain_identifier_is_kept(identifier: Seq<char>)
    requires
        forall|i: int| 0 <= i < identifier.len() ==> identifier[i] != '`',
    ensures
        escaped(identifier) == identifier,
    decreases identifier.len(),
{
    if identifier.len() > 0 {
        law_plain_identifier_is_kept(identifier.drop_last());
        assert(escaped(identifier) =~= identifier);
    }
}

/// In an escaped identifier the backticks come in pairs: their number is
/// twice that of the identifier, and so no backtick of the identifier ends
/// the quotation.
pub proof fn law_escaping_doubles_backticks(identifier: Seq<char>)
    ensures
        backticks(escaped(identifier)) == 2 * backticks(identifier),
        escaped(identifier).len() == identifier.len() + backticks(identifier),
    decreases identifier.len(),
{
    reveal_strlit("``");
    if identifier.len() > 0 {
        law_escaping_doubles_backticks(identifier.drop_last());
        let shorter = escaped(identifier.drop_last());
        if identifier.last() == '`' {
            let once = shorter.push('`');
            let twice = once.push('`');
            assert("``"@ =~= seq!['`', '`']);
            assert(escaped(identifier) =~= twice);
            assert(once.drop_last() =~= shorter);
            assert(once.last() == '`');
            assert(twice.drop_last() =~= once);
            assert(twice.last() == '`');
            assert(backticks(once) == backticks(shorter) + 1);
            assert(backticks(twice) == backticks(once) + 1);
        } else {
            let kept = shorter.push(identifier.last());
            assert(escaped(identifier) =~= kept);
            assert(kept.drop_last() =~= shorter);
            assert(kept.last() == identifier.last());
            assert(backticks(kept) == backticks(shorter));
        }
    }
}

/// The number of backticks in a text.
pub open spec fn backticks(text: Seq<char>) -> nat
    decreases text.len(),
{
    if text.len() == 0 {
        0
    } else if text.last() == '`' {
        backticks(text.drop_last()) + 1
    } else {
        backticks(text.drop_last())
    }
}

} // verus!
