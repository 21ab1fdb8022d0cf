//! The result normalizer: from what the driver hands out to canonical
//! entities and their JSON objects.
//!
//! A property is read under several types in a fixed order, and the first
//! read that succeeds decides its JSON value. A property that no read
//! succeeds on becomes null. No conversion here fails.

use crate::driver::{
    node_id, node_identity, node_key_set, node_keys, node_label_texts, node_labels, node_property,
    node_reads, path_node_list, path_nodes, path_relationship_list, path_relationships,
    relation_end, relation_end_identity, relation_id, relation_identity, relation_key_set,
    relation_keys, relation_property, relation_reads, relation_start, relation_start_identity,
    relation_type, relation_type_text, row_document_checked, row_document_of, unbounded_id,
    unbounded_identity, unbounded_key_set, unbounded_keys, unbounded_property, unbounded_reads,
    unbounded_type, unbounded_type_text, PropertyReads, ScalarReads,
};
use crate::json::{fields_of, integers_model, models_of, strings_model, JsonModel, JsonValue};
use crate::order::reversed;
use crate::text::{same_text, texts_model};
use vstd::prelude::*;
use vstd::string::*;

verus! {

/// The JSON value of the first single-valued read that succeeded, in the
/// order integer, float, boolean, text; `None` where none did.
pub open spec fn scalar_json(reads: ScalarReads) -> Option<JsonModel> {
    if let Some(i) = reads.integer {
        Some(JsonModel::Integer(i))
    } else if let Some(f) = reads.float {
        Some(JsonModel::Float(f))
    } else if let Some(b) = reads.boolean {
        Some(JsonModel::Bool(b))
    } else if let Some(s) = reads.text {
        Some(JsonModel::String(s@))
    } else {
        None
    }
}

/// The JSON value of a node's property: that of the first read that
/// succeeded, in the order integer, float, boolean, text, list of text, list
/// of integers; null where none did.
pub open spec fn node_property_json(reads: PropertyReads) -> JsonModel {
    if let Some(value) = scalar_json(reads.scalars) {
        value
    } else if let Some(texts) = reads.texts {
        JsonModel::Array(strings_model(texts@))
    } else if let Some(integers) = reads.integers {
        JsonModel::Array(integers_model(integers@))
    } else {
        JsonModel::Null
    }
}

/// The JSON value of a relationship's property: that of the first read that
/// succeeded, in the order integer, float, boolean, text; null where none
/// did. No list is read.
pub open spec fn relationship_property_json(reads: ScalarReads) -> JsonModel {
    match scalar_json(reads) {
        Some(value) => value,
        None => JsonModel::Null,
    }
}

/// A JSON number, boolean or string.
pub open spec fn is_scalar_json(value: JsonModel) -> bool {
    value is Integer || value is Float || value is Bool || value is String
}

/// A value that a relationship's property can have: a scalar or null.
pub open spec fn is_relationship_property_json(value: JsonModel) -> bool {
    is_scalar_json(value) || value is Null
}

/// A value that a node's property can have: a scalar, null, an array of
/// strings or an array of integers.
pub open spec fn is_node_property_json(value: JsonModel) -> bool {
    ||| is_scalar_json(value)
    ||| value is Null
    ||| (value matches JsonModel::Array(items) && forall|i: int|
        0 <= i < items.len() ==> #[trigger] items[i] is String)
    ||| (value matches JsonModel::Array(items) && forall|i: int|
        0 <= i < items.len() ==> #[trigger] items[i] is Integer)
}

/// The JSON value of the first single-valued read that succeeded.
pub fn scalar_value(reads: ScalarReads) -> (value: Option<JsonValue>)
    ensures
        match value {
            Some(v) => scalar_json(reads) == Some(v@),
            None => scalar_json(reads) is None,
        },
{
    if let Some(i) = reads.integer {
        Some(JsonValue::Integer(i))
    } else if let Some(f) = reads.float {
        Some(JsonValue::Float(f))
    } else if let Some(b) = reads.boolean {
        Some(JsonValue::Bool(b))
    } else if let Some(s) = reads.text {
        Some(JsonValue::String(s))
    } else {
        None
    }
}

/// The JSON value of a node's property, from its typed reads.
pub fn node_property_value(reads: PropertyReads) -> (value: JsonValue)
    ensures
        value@ == node_property_json(reads),
        is_node_property_json(value@),
{
    let PropertyReads { scalars, texts, integers } = reads;
    match scalar_value(scalars) {
        Some(value) => value,
        None => {
            if let Some(texts) = texts {
                JsonValue::strings(texts)
            } else if let Some(integers) = integers {
                JsonValue::integers(&integers)
            } else {
                JsonValue::Null
            }
        },
    }
}

/// The JSON value of a relationship's property, from its typed reads.
pub fn relationship_property_value(reads: ScalarReads) -> (value: JsonValue)
    ensures
        value@ == relationship_property_json(reads),
        is_relationship_property_json(value@),
{
    match scalar_value(reads) {
        Some(value) => value,
        None => JsonValue::Null,
    }
}

/// A node as the driver gave it, read into plain values: its id, its labels
/// and, for each property key, the typed reads of the property.
#[derive(Debug, PartialEq)]
pub struct NodeRecord {
    pub id: i64,
    pub labels: Vec<String>,
    pub properties: Vec<(String, PropertyReads)>,
}

/// A relationship as the driver gave it, read into plain values.
#[derive(Debug, PartialEq)]
pub struct RelationshipRecord {
    pub id: i64,
    pub start_id: i64,
    pub end_id: i64,
    pub rel_type: String,
    pub properties: Vec<(String, ScalarReads)>,
}

/// The canonical form of a node: its internal id, its labels in order, and
/// its properties as JSON values.
#[derive(Debug, PartialEq)]
pub struct CanonicalNode {
    pub id: i64,
    pub labels: Vec<String>,
    pub properties: Vec<(String, JsonValue)>,
}

/// The canonical form of a relationship: its internal id, the ids of its
/// two ends, its type, and its properties as JSON values.
#[derive(Debug, PartialEq)]
pub struct CanonicalRelationship {
    pub id: i64,
    pub start_id: i64,
    pub end_id: i64,
    pub rel_type: String,
    pub properties: Vec<(String, JsonValue)>,
}

/// The properties of a node's record as JSON fields, one for one.
pub open spec fn node_fields(properties: Seq<(String, PropertyReads)>) -> Seq<
    (Seq<char>, JsonModel),
> {
    Seq::new(properties.len(), |i: int| (properties[i].0@, node_property_json(properties[i].1)))
}

/// The properties of a relationship's record as JSON fields, one for one.
pub open spec fn relationship_fields(properties: Seq<(String, ScalarReads)>) -> Seq<
    (Seq<char>, JsonModel),
> {
    Seq::new(
        properties.len(),
        |i: int| (properties[i].0@, relationship_property_json(properties[i].1)),
    )
}

/// A key that the JSON object of a node keeps for itself.
pub open spec fn is_node_reserved(key: Seq<char>) -> bool {
    key == "_id"@ || key == "_labels"@
}

/// A key that the JSON object of a relationship keeps for itself.
pub open spec fn is_relationship_reserved(key: Seq<char>) -> bool {
    key == "_id"@ || key == "_start_node_id"@ || key == "_end_node_id"@ || key == "_type"@
}

/// The fields of `fields` whose key is not reserved for a node, in order.
pub open spec fn node_unreserved(fields: Seq<(Seq<char>, JsonModel)>) -> Seq<
    (Seq<char>, JsonModel),
>
    decreases fields.len(),
{
    if fields.len() == 0 {
        Seq::empty()
    } else if is_node_reserved(fields.last().0) {
        node_unreserved(fields.drop_last())
    } else {
        node_unreserved(fields.drop_last()).push(fields.last())
    }
}

/// The fields of `fields` whose key is not reserved for a relationship, in
/// order.
pub open spec fn relationship_unreserved(fields: Seq<(Seq<char>, JsonModel)>) -> Seq<
    (Seq<char>, JsonModel),
>
    decreases fields.len(),
{
    if fields.len() == 0 {
        Seq::empty()
    } else if is_relationship_reserved(fields.last().0) {
        relationship_unreserved(fields.drop_last())
    } else {
        relationship_unreserved(fields.drop_last()).push(fields.last())
    }
}

/// The JSON object of a node: `_id`, then `_labels`, then every property
/// whose key is not one of those two.
pub open spec fn node_object(
    id: i64,
    labels: Seq<String>,
    properties: Seq<(Seq<char>, JsonModel)>,
) -> JsonModel {
    JsonModel::Object(
        seq![
            ("_id"@, JsonModel::Integer(id)),
            ("_labels"@, JsonModel::Array(strings_model(labels))),
        ] + node_unreserved(properties),
    )
}

/// The JSON object of a relationship: `_id`, `_start_node_id`,
/// `_end_node_id`, `_type`, then every property whose key is not one of
/// those four.
pub open spec fn relationship_object(
    id: i64,
    start_id: i64,
    end_id: i64,
    rel_type: Seq<char>,
    properties: Seq<(Seq<char>, JsonModel)>,
) -> JsonModel {
    JsonModel::Object(
        seq![
            ("_id"@, JsonModel::Integer(id)),
            ("_start_node_id"@, JsonModel::Integer(start_id)),
            ("_end_node_id"@, JsonModel::Integer(end_id)),
            ("_type"@, JsonModel::String(rel_type)),
        ] + relationship_unreserved(properties),
    )
}

/// No two of the fields have the same key.
pub open spec fn distinct_keys(fields: Seq<(Seq<char>, JsonModel)>) -> bool {
    forall|i: int, j: int|
        0 <= i < j < fields.len() ==> (#[trigger] fields[i]).0 != (#[trigger] fields[j]).0
}

/// The value is an object, and no two of its fields have the same key.
pub open spec fn has_distinct_keys(value: JsonModel) -> bool {
    value matches JsonModel::Object(fields) && distinct_keys(fields)
}

/// What holds of the JSON object of every node: it starts with an integer
/// `_id` and an array of strings `_labels`, and each further field has a key
/// of the node's own and a value that a node's property can have.
pub open spec fn is_node_object(value: JsonModel) -> bool {
    &&& value matches JsonModel::Object(fields)
    &&& fields.len() >= 2
    &&& fields[0].0 == "_id"@
    &&& fields[0].1 is Integer
    &&& fields[1].0 == "_labels"@
    &&& fields[1].1 matches JsonModel::Array(labels)
    &&& forall|i: int| 0 <= i < labels.len() ==> #[trigger] labels[i] is String
    &&& forall|i: int|
        2 <= i < fields.len() ==> !is_node_reserved((#[trigger] fields[i]).0)
            && is_node_property_json(fields[i].1)
}

/// What holds of the JSON object of every relationship: it starts with the
/// integers `_id`, `_start_node_id` and `_end_node_id` and the string
/// `_type`, and each further field has a key of the relationship's own and a
/// scalar or null value.
pub open spec fn is_relationship_object(value: JsonModel) -> bool {
    &&& value matches JsonModel::Object(fields)
    &&& fields.len() >= 4
    &&& fields[0].0 == "_id"@
    &&& fields[0].1 is Integer
    &&& fields[1].0 == "_start_node_id"@
    &&& fields[1].1 is Integer
    &&& fields[2].0 == "_end_node_id"@
    &&& fields[2].1 is Integer
    &&& fields[3].0 == "_type"@
    &&& fields[3].1 is String
    &&& forall|i: int|
        4 <= i < fields.len() ==> !is_relationship_reserved((#[trigger] fields[i]).0)
            && is_relationship_property_json(fields[i].1)
}

/// Every property of the canonical node has a value that a node's property
/// can have.
pub open spec fn node_properties_valid(properties: Seq<(String, JsonValue)>) -> bool {
    forall|i: int| 0 <= i < properties.len() ==> is_node_property_json((#[trigger] properties[i]).1@)
}

/// Every property of the canonical relationship is a scalar or null.
pub open spec fn relationship_properties_valid(properties: Seq<(String, JsonValue)>) -> bool {
    forall|i: int|
        0 <= i < properties.len() ==> is_relationship_property_json((#[trigger] properties[i]).1@)
}

impl CanonicalNode {
    /// The node's properties all have values that a node's property can
    /// have. The normalizer makes only such nodes.
    pub open spec fn well_formed(&self) -> bool {
        node_properties_valid(self.properties@)
    }

    /// The JSON object of this node, as mathematics.
    pub open spec fn json(self) -> JsonModel {
        node_object(self.id, self.labels@, fields_of(self.properties@))
    }

    /// The JSON object of this node.
    pub fn to_json(self) -> (object: JsonValue)
        ensures
            object@ == self.json(),
            self.well_formed() ==> is_node_object(object@),
    {
        let CanonicalNode { id, labels, properties } = self;
        let ghost given = fields_of(properties@);
        let ghost head = seq![
            ("_id"@, JsonModel::Integer(id)),
            ("_labels"@, JsonModel::Array(strings_model(labels@))),
        ];
        let mut fields: Vec<(String, JsonValue)> = Vec::new();
        fields.push((String::from_str("_id"), JsonValue::Integer(id)));
        fields.push((String::from_str("_labels"), JsonValue::strings(labels)));
        assert(fields_of(fields@) =~= head);
        let n = properties.len();
        let mut back = reversed(properties);
        let mut done: usize = 0;
        while done < n
            invariant
                n == given.len(),
                done <= n,
                back@.len() == n - done,
                forall|j: int|
                    0 <= j < back@.len() ==> (#[trigger] back@[j]).0@ == given[n - 1 - j].0
                        && back@[j].1@ == given[n - 1 - j].1,
                fields_of(fields@) == head + node_unreserved(given.take(done as int)),
            decreases n - done,
        {
            let ghost before = fields_of(fields@);
            let (key, value) = back.pop().unwrap();
            proof {
                let longer = given.take(done + 1);
                assert(longer.drop_last() =~= given.take(done as int));
                assert(longer.last() == given[done as int]);
            }
            if !(same_text(key.as_str(), "_id") || same_text(key.as_str(), "_labels")) {
                fields.push((key, value));
                assert(fields_of(fields@) =~= before.push(given[done as int]));
                assert(fields_of(fields@) =~= head + node_unreserved(given.take(done + 1)));
            }
            done = done + 1;
        }
        assert(given.take(n as int) =~= given);
        let object = JsonValue::object(fields);
        proof {
            if self.well_formed() {
                lemma_node_unreserved(given);
                let all = head + node_unreserved(given);
                assert forall|i: int| 2 <= i < all.len() implies !is_node_reserved(
                    (#[trigger] all[i]).0,
                ) && is_node_property_json(all[i].1) by {
                    assert(all[i] == node_unreserved(given)[i - 2]);
                }
                assert(all[0] == head[0]);
                assert(all[1] == head[1]);
            }
        }
        object
    }
}

/// Every field that is kept has a key that is not reserved, and was a field
/// before.
proof fn lemma_node_unreserved(fields: Seq<(Seq<char>, JsonModel)>)
    ensures
        forall|i: int|
            0 <= i < node_unreserved(fields).len() ==> !is_node_reserved(
                (#[trigger] node_unreserved(fields)[i]).0,
            ) && fields.contains(node_unreserved(fields)[i]),
        distinct_keys(fields) ==> distinct_keys(node_unreserved(fields)),
    decreases fields.len(),
{
    if fields.len() > 0 {
        lemma_node_unreserved(fields.drop_last());
        let kept = node_unreserved(fields);
        if distinct_keys(fields) {
            let shorter = node_unreserved(fields.drop_last());
            assert(distinct_keys(fields.drop_last())) by {
                assert forall|i: int, j: int| 0 <= i < j < fields.drop_last().len() implies (
                #[trigger] fields.drop_last()[i]).0 != (#[trigger] fields.drop_last()[j]).0 by {
                    assert(fields[i].0 != fields[j].0);
                }
            }
            assert forall|i: int, j: int| 0 <= i < j < kept.len() implies (#[trigger] kept[i]).0 != (
            #[trigger] kept[j]).0 by {
                if j < shorter.len() {
                    assert(kept[i] == shorter[i] && kept[j] == shorter[j]);
                } else {
                    assert(kept[j] == fields.last());
                    assert(kept[i] == shorter[i]);
                    let k = choose|k: int|
                        0 <= k < fields.drop_last().len() && fields.drop_last()[k] == shorter[i];
                    assert(fields[k].0 != fields[fields.len() - 1].0);
                }
            }
        }
        assert forall|i: int| 0 <= i < kept.len() implies !is_node_reserved((#[trigger] kept[i]).0)
            && fields.contains(kept[i]) by {
            let shorter = node_unreserved(fields.drop_last());
            if i < shorter.len() {
                assert(kept[i] == shorter[i]);
                let j = choose|j: int|
                    0 <= j < fields.drop_last().len() && fields.drop_last()[j] == shorter[i];
                assert(fields[j] == kept[i]);
            } else {
                assert(kept[i] == fields.last());
                assert(fields[fields.len() - 1] == kept[i]);
            }
        }
    }
}

/// Every field that is kept has a key that is not reserved, and was a field
/// before.
proof fn lemma_relationship_unreserved(fields: Seq<(Seq<char>, JsonModel)>)
    ensures
        forall|i: int|
            0 <= i < relationship_unreserved(fields).len() ==> !is_relationship_reserved(
                (#[trigger] relationship_unreserved(fields)[i]).0,
            ) && fields.contains(relationship_unreserved(fields)[i]),
        distinct_keys(fields) ==> distinct_keys(relationship_unreserved(fields)),
    decreases fields.len(),
{
    if fields.len() > 0 {
        lemma_relationship_unreserved(fields.drop_last());
        let kept = relationship_unreserved(fields);
        if distinct_keys(fields) {
            let shorter = relationship_unreserved(fields.drop_last());
            assert(distinct_keys(fields.drop_last())) by {
                assert forall|i: int, j: int| 0 <= i < j < fields.drop_last().len() implies (
                #[trigger] fields.drop_last()[i]).0 != (#[trigger] fields.drop_last()[j]).0 by {
                    assert(fields[i].0 != fields[j].0);
                }
            }
            assert forall|i: int, j: int| 0 <= i < j < kept.len() implies (#[trigger] kept[i]).0 != (
            #[trigger] kept[j]).0 by {
                if j < shorter.len() {
                    assert(kept[i] == shorter[i] && kept[j] == shorter[j]);
                } else {
                    assert(kept[j] == fields.last());
                    assert(kept[i] == shorter[i]);
                    let k = choose|k: int|
                        0 <= k < fields.drop_last().len() && fields.drop_last()[k] == shorter[i];
                    assert(fields[k].0 != fields[fields.len() - 1].0);
                }
            }
        }
        assert forall|i: int| 0 <= i < kept.len() implies !is_relationship_reserved(
            (#[trigger] kept[i]).0,
        ) && fields.contains(kept[i]) by {
            let shorter = relationship_unreserved(fields.drop_last());
            if i < shorter.len() {
                assert(kept[i] == shorter[i]);
                let j = choose|j: int|
                    0 <= j < fields.drop_last().len() && fields.drop_last()[j] == shorter[i];
                assert(fields[j] == kept[i]);
            } else {
                assert(kept[i] == fields.last());
                assert(fields[fields.len() - 1] == kept[i]);
            }
        }
    }
}

/// Where no two properties have the same key, no two fields of the node's
/// object have.
proof fn lemma_node_object_keys(id: i64, labels: Seq<String>, fields: Seq<(Seq<char>, JsonModel)>)
    requires
        distinct_keys(fields),
    ensures
        has_distinct_keys(node_object(id, labels, fields)),
{
    reveal_strlit("_id");
    reveal_strlit("_labels");
    lemma_node_unreserved(fields);
    let head = seq![
        ("_id"@, JsonModel::Integer(id)),
        ("_labels"@, JsonModel::Array(strings_model(labels))),
    ];
    let kept = node_unreserved(fields);
    let all = head + kept;
    assert("_id"@.len() != "_labels"@.len());
    assert forall|i: int, j: int| 0 <= i < j < all.len() implies (#[trigger] all[i]).0 != (
    #[trigger] all[j]).0 by {
        if j >= 2 {
            assert(all[j] == kept[j - 2]);
            if i >= 2 {
                assert(all[i] == kept[i - 2]);
            } else {
                assert(all[i] == head[i]);
            }
        } else {
            assert(all[i] == head[i] && all[j] == head[j]);
        }
    }
}

/// Where no two properties have the same key, no two fields of the
/// relationship's object have.
proof fn lemma_relationship_object_keys(
    id: i64,
    start_id: i64,
    end_id: i64,
    rel_type: Seq<char>,
    fields: Seq<(Seq<char>, JsonModel)>,
)
    requires
        distinct_keys(fields),
    ensures
        has_distinct_keys(relationship_object(id, start_id, end_id, rel_type, fields)),
{
    reveal_strlit("_id");
    reveal_strlit("_start_node_id");
    reveal_strlit("_end_node_id");
    reveal_strlit("_type");
    lemma_relationship_unreserved(fields);
    let head = seq![
        ("_id"@, JsonModel::Integer(id)),
        ("_start_node_id"@, JsonModel::Integer(start_id)),
        ("_end_node_id"@, JsonModel::Integer(end_id)),
        ("_type"@, JsonModel::String(rel_type)),
    ];
    let kept = relationship_unreserved(fields);
    let all = head + kept;
    assert("_id"@.len() == 3 && "_start_node_id"@.len() == 14 && "_end_node_id"@.len() == 12
        && "_type"@.len() == 5);
    assert forall|i: int, j: int| 0 <= i < j < all.len() implies (#[trigger] all[i]).0 != (
    #[trigger] all[j]).0 by {
        if j >= 4 {
            assert(all[j] == kept[j - 4]);
            if i >= 4 {
                assert(all[i] == kept[i - 4]);
            } else {
                assert(all[i] == head[i]);
            }
        } else {
            assert(all[i] == head[i] && all[j] == head[j]);
        }
    }
}

/// The fields that stand for the properties of a record have the keys of
/// the record, so where those are listed once each, no two fields have the
/// same key.
proof fn lemma_listed_keys_are_distinct<T>(
    properties: Seq<(String, T)>,
    fields: Seq<(Seq<char>, JsonModel)>,
    set: Option<Set<Seq<char>>>,
)
    requires
        lists_keys(record_keys(properties), set),
        fields.len() == properties.len(),
        forall|i: int| 0 <= i < fields.len() ==> (#[trigger] fields[i]).0 == properties[i].0@,
    ensures
        distinct_keys(fields),
{
    let keys = record_keys(properties);
    assert forall|i: int, j: int| 0 <= i < j < fields.len() implies (#[trigger] fields[i]).0 != (
    #[trigger] fields[j]).0 by {
        assert(keys[i] == fields[i].0 && keys[j] == fields[j].0);
    }
}

impl CanonicalRelationship {
    /// The relationship's properties are all scalars or null. The normalizer
    /// makes only such relationships.
    pub open spec fn well_formed(&self) -> bool {
        relationship_properties_valid(self.properties@)
    }

    /// The JSON object of this relationship, as mathematics.
    pub open spec fn json(self) -> JsonModel {
        relationship_object(
            self.id,
            self.start_id,
            self.end_id,
            self.rel_type@,
            fields_of(self.properties@),
        )
    }

    /// The JSON object of this relationship.
    pub fn to_json(self) -> (object: JsonValue)
        ensures
            object@ == self.json(),
            self.well_formed() ==> is_relationship_object(object@),
    {
        let CanonicalRelationship { id, start_id, end_id, rel_type, properties } = self;
        let ghost given = fields_of(properties@);
        let ghost head = seq![
            ("_id"@, JsonModel::Integer(id)),
            ("_start_node_id"@, JsonModel::Integer(start_id)),
            ("_end_node_id"@, JsonModel::Integer(end_id)),
            ("_type"@, JsonModel::String(rel_type@)),
        ];
        let mut fields: Vec<(String, JsonValue)> = Vec::new();
        fields.push((String::from_str("_id"), JsonValue::Integer(id)));
        fields.push((String::from_str("_start_node_id"), JsonValue::Integer(start_id)));
        fields.push((String::from_str("_end_node_id"), JsonValue::Integer(end_id)));
        fields.push((String::from_str("_type"), JsonValue::String(rel_type)));
        assert(fields_of(fields@) =~= head);
        let n = properties.len();
        let mut back = reversed(properties);
        let mut done: usize = 0;
        while done < n
            invariant
                n == given.len(),
                done <= n,
                back@.len() == n - done,
                forall|j: int|
                    0 <= j < back@.len() ==> (#[trigger] back@[j]).0@ == given[n - 1 - j].0
                        && back@[j].1@ == given[n - 1 - j].1,
                fields_of(fields@) == head + relationship_unreserved(given.take(done as int)),
            decreases n - done,
        {
            let ghost before = fields_of(fields@);
            let (key, value) = back.pop().unwrap();
            proof {
                let longer = given.take(done + 1);
                assert(longer.drop_last() =~= given.take(done as int));
                assert(longer.last() == given[done as int]);
            }
            if !(same_text(key.as_str(), "_id") || same_text(key.as_str(), "_start_node_id")
                || same_text(key.as_str(), "_end_node_id") || same_text(key.as_str(), "_type")) {
                fields.push((key, value));
                assert(fields_of(fields@) =~= before.push(given[done as int]));
                assert(fields_of(fields@) =~= head + relationship_unreserved(
                    given.take(done + 1),
                ));
            }
            done = done + 1;
        }
        assert(given.take(n as int) =~= given);
        let object = JsonValue::object(fields);
        proof {
            if self.well_formed() {
                lemma_relationship_unreserved(given);
                let all = head + relationship_unreserved(given);
                assert forall|i: int| 4 <= i < all.len() implies !is_relationship_reserved(
                    (#[trigger] all[i]).0,
                ) && is_relationship_property_json(all[i].1) by {
                    assert(all[i] == relationship_unreserved(given)[i - 4]);
                }
                assert(all[0] == head[0]);
                assert(all[1] == head[1]);
                assert(all[2] == head[2]);
                assert(all[3] == head[3]);
            }
        }
        object
    }
}

/// The canonical form of a node's record: each property gets the JSON value
/// of the first of its reads that succeeded.
pub fn normalize_node(record: NodeRecord) -> (node: CanonicalNode)
    ensures
        normalizes_node(record, node),
        node.well_formed(),
{
    let NodeRecord { id, labels, properties } = record;
    let ghost given = properties@;
    let n = properties.len();
    let mut back = reversed(properties);
    let mut values: Vec<(String, JsonValue)> = Vec::new();
    while values.len() < n
        invariant
            n == given.len(),
            values@.len() <= n,
            back@.len() == n - values@.len(),
            forall|j: int| 0 <= j < back@.len() ==> back@[j] == given[n - 1 - j],
            forall|j: int|
                0 <= j < values@.len() ==> (#[trigger] values@[j]).0@ == given[j].0@
                    && values@[j].1@ == node_property_json(given[j].1),
        decreases n - values@.len(),
    {
        let (key, reads) = back.pop().unwrap();
        let value = node_property_value(reads);
        values.push((key, value));
    }
    assert(fields_of(values@) =~= node_fields(given));
    CanonicalNode { id, labels, properties: values }
}

/// The canonical form of a relationship's record.
pub fn normalize_relationship(record: RelationshipRecord) -> (relationship: CanonicalRelationship)
    ensures
        normalizes_relationship(record, relationship),
        relationship.well_formed(),
{
    let RelationshipRecord { id, start_id, end_id, rel_type, properties } = record;
    let ghost given = properties@;
    let n = properties.len();
    let mut back = reversed(properties);
    let mut values: Vec<(String, JsonValue)> = Vec::new();
    while values.len() < n
        invariant
            n == given.len(),
            values@.len() <= n,
            back@.len() == n - values@.len(),
            forall|j: int| 0 <= j < back@.len() ==> back@[j] == given[n - 1 - j],
            forall|j: int|
                0 <= j < values@.len() ==> (#[trigger] values@[j]).0@ == given[j].0@
                    && values@[j].1@ == relationship_property_json(given[j].1),
        decreases n - values@.len(),
    {
        let (key, reads) = back.pop().unwrap();
        let value = relationship_property_value(reads);
        values.push((key, value));
    }
    assert(fields_of(values@) =~= relationship_fields(given));
    CanonicalRelationship { id, start_id, end_id, rel_type, properties: values }
}

/// The keys of the properties of a record, in order.
pub open spec fn record_keys<T>(properties: Seq<(String, T)>) -> Seq<Seq<char>> {
    Seq::new(properties.len(), |i: int| properties[i].0@)
}

/// `keys` lists every key of the set once, in some order; or there is no set
/// and no key.
pub open spec fn lists_keys(keys: Seq<Seq<char>>, set: Option<Set<Seq<char>>>) -> bool {
    match set {
        Some(s) => keys.no_duplicates() && keys.to_set() == s,
        None => keys.len() == 0,
    }
}

/// The labels of a node; none where the node's labels are not all texts.
pub open spec fn label_texts(node: neo4rs::Node) -> Seq<Seq<char>> {
    match node_label_texts(node) {
        Some(labels) => labels,
        None => Seq::empty(),
    }
}

/// The type of a relationship; the empty text where it cannot be read.
pub open spec fn type_text(relation: neo4rs::Relation) -> Seq<char> {
    match relation_type_text(relation) {
        Some(name) => name,
        None => Seq::empty(),
    }
}

/// `record` is a reading of `node`: it has the node's id and labels, one
/// entry for each property key of the node, and under each key what the node
/// gives for it. Two readings of a node differ at most in the order of their
/// entries.
pub open spec fn is_reading_of_node(node: neo4rs::Node, record: NodeRecord) -> bool {
    &&& record.id == node_identity(node)
    &&& texts_model(record.labels@) == label_texts(node)
    &&& lists_keys(record_keys(record.properties@), node_key_set(node))
    &&& forall|i: int|
        0 <= i < record.properties@.len() ==> (#[trigger] record.properties@[i]).1 == node_reads(
            node,
            record.properties@[i].0@,
        )
}

/// `record` is a reading of `relation`: it has the relationship's ids and
/// type, one entry for each property key, and under each key what the
/// relationship gives for it.
pub open spec fn is_reading_of_relationship(
    relation: neo4rs::Relation,
    record: RelationshipRecord,
) -> bool {
    &&& record.id == relation_identity(relation)
    &&& record.start_id == relation_start_identity(relation)
    &&& record.end_id == relation_end_identity(relation)
    &&& record.rel_type@ == type_text(relation)
    &&& lists_keys(record_keys(record.properties@), relation_key_set(relation))
    &&& forall|i: int|
        0 <= i < record.properties@.len() ==> (#[trigger] record.properties@[i]).1
            == relation_reads(relation, record.properties@[i].0@)
}

/// `canonical` is the canonical form of `record`.
pub open spec fn normalizes_node(record: NodeRecord, canonical: CanonicalNode) -> bool {
    &&& canonical.id == record.id
    &&& canonical.labels == record.labels
    &&& fields_of(canonical.properties@) == node_fields(record.properties@)
}

/// `canonical` is the canonical form of `record`.
pub open spec fn normalizes_relationship(
    record: RelationshipRecord,
    canonical: CanonicalRelationship,
) -> bool {
    &&& canonical.id == record.id
    &&& canonical.start_id == record.start_id
    &&& canonical.end_id == record.end_id
    &&& canonical.rel_type == record.rel_type
    &&& fields_of(canonical.properties@) == relationship_fields(record.properties@)
}

/// `canonical` is the canonical form of a reading of `node`.
pub open spec fn canonical_of_node(node: neo4rs::Node, canonical: CanonicalNode) -> bool {
    canonical.well_formed() && exists|record: NodeRecord| #[trigger]
        is_reading_of_node(node, record) && normalizes_node(record, canonical)
}

/// `canonical` is the canonical form of a reading of `relation`.
pub open spec fn canonical_of_relationship(
    relation: neo4rs::Relation,
    canonical: CanonicalRelationship,
) -> bool {
    canonical.well_formed() && exists|record: RelationshipRecord| #[trigger]
        is_reading_of_relationship(relation, record) && normalizes_relationship(record, canonical)
}

/// Reads a node of the driver into plain values: one entry for each key that
/// the driver lists, in the driver's order. A node whose labels or keys
/// cannot be read has none.
pub fn read_node(node: &neo4rs::Node) -> (record: NodeRecord)
    ensures
        is_reading_of_node(*node, record),
{
    let id = node_id(node);
    let labels = match node_labels(node) {
        Some(labels) => labels,
        None => Vec::new(),
    };
    assert(texts_model(labels@) =~= label_texts(*node));
    let keys = match node_keys(node) {
        Some(keys) => keys,
        None => Vec::new(),
    };
    let ghost listed = texts_model(keys@);
    assert(lists_keys(listed, node_key_set(*node)));
    let n = keys.len();
    let mut back = reversed(keys);
    let mut properties: Vec<(String, PropertyReads)> = Vec::new();
    while properties.len() < n
        invariant
            n == listed.len(),
            properties@.len() <= n,
            back@.len() == n - properties@.len(),
            forall|j: int| 0 <= j < back@.len() ==> (#[trigger] back@[j])@ == listed[n - 1 - j],
            forall|j: int|
                0 <= j < properties@.len() ==> (#[trigger] properties@[j]).0@ == listed[j]
                    && properties@[j].1 == node_reads(*node, listed[j]),
        decreases n - properties@.len(),
    {
        let key = back.pop().unwrap();
        let reads = node_property(node, key.as_str());
        properties.push((key, reads));
    }
    assert(record_keys(properties@) =~= listed);
    NodeRecord { id, labels, properties }
}

/// Reads a relationship of the driver into plain values. A relationship
/// whose type cannot be read has the empty type, and one whose keys cannot
/// be read has no property.
pub fn read_relationship(relation: &neo4rs::Relation) -> (record: RelationshipRecord)
    ensures
        is_reading_of_relationship(*relation, record),
{
    let id = relation_id(relation);
    let start_id = relation_start(relation);
    let end_id = relation_end(relation);
    let rel_type = match relation_type(relation) {
        Some(name) => name,
        None => String::new(),
    };
    let keys = match relation_keys(relation) {
        Some(keys) => keys,
        None => Vec::new(),
    };
    let ghost listed = texts_model(keys@);
    assert(lists_keys(listed, relation_key_set(*relation)));
    let n = keys.len();
    let mut back = reversed(keys);
    let mut properties: Vec<(String, ScalarReads)> = Vec::new();
    while properties.len() < n
        invariant
            n == listed.len(),
            properties@.len() <= n,
            back@.len() == n - properties@.len(),
            forall|j: int| 0 <= j < back@.len() ==> (#[trigger] back@[j])@ == listed[n - 1 - j],
            forall|j: int|
                0 <= j < properties@.len() ==> (#[trigger] properties@[j]).0@ == listed[j]
                    && properties@[j].1 == relation_reads(*relation, listed[j]),
        decreases n - properties@.len(),
    {
        let key = back.pop().unwrap();
        let reads = relation_property(relation, key.as_str());
        properties.push((key, reads));
    }
    assert(record_keys(properties@) =~= listed);
    RelationshipRecord { id, start_id, end_id, rel_type, properties }
}

/// The JSON value of one property of a node of the driver: that of the
/// first read that succeeds, or null.
pub fn node_field_to_json(node: &neo4rs::Node, key: &str) -> (value: JsonValue)
    ensures
        value@ == node_property_json(node_reads(*node, key@)),
        is_node_property_json(value@),
{
    node_property_value(node_property(node, key))
}

/// The JSON value of one property of a relationship of the driver: that of
/// the first read that succeeds, or null.
pub fn rel_field_to_json(relation: &neo4rs::Relation, key: &str) -> (value: JsonValue)
    ensures
        value@ == relationship_property_json(relation_reads(*relation, key@)),
        is_relationship_property_json(value@),
{
    relationship_property_value(relation_property(relation, key))
}

/// The canonical form of a node of the driver.
pub fn canonical_node(node: &neo4rs::Node) -> (canonical: CanonicalNode)
    ensures
        canonical_of_node(*node, canonical),
{
    let record = read_node(node);
    let canonical = normalize_node(record);
    assert(is_reading_of_node(*node, record) && normalizes_node(record, canonical));
    canonical
}

/// The canonical form of a relationship of the driver.
pub fn canonical_relationship(relation: &neo4rs::Relation) -> (canonical: CanonicalRelationship)
    ensures
        canonical_of_relationship(*relation, canonical),
{
    let record = read_relationship(relation);
    let canonical = normalize_relationship(record);
    assert(is_reading_of_relationship(*relation, record) && normalizes_relationship(
        record,
        canonical,
    ));
    canonical
}

/// The JSON object of a node of the driver: that of the canonical form of a
/// reading of the node. No two of its fields have the same key.
pub fn node_to_json(node: &neo4rs::Node) -> (object: JsonValue)
    ensures
        is_node_json(*node, object@),
        is_node_object(object@),
        has_distinct_keys(object@),
{
    let canonical = canonical_node(node);
    assert(canonical_of_node(*node, canonical));
    proof {
        let record = choose|record: NodeRecord|
            is_reading_of_node(*node, record) && normalizes_node(record, canonical);
        let fields = fields_of(canonical.properties@);
        lemma_listed_keys_are_distinct(record.properties@, fields, node_key_set(*node));
        lemma_node_object_keys(canonical.id, canonical.labels@, fields);
    }
    canonical.to_json()
}

/// The JSON object of a relationship of the driver: that of the canonical
/// form of a reading of the relationship. No two of its fields have the same
/// key.
pub fn relation_to_json(relation: &neo4rs::Relation) -> (object: JsonValue)
    ensures
        exists|canonical: CanonicalRelationship| #[trigger]
            canonical_of_relationship(*relation, canonical) && object@ == canonical.json(),
        is_relationship_object(object@),
        has_distinct_keys(object@),
{
    let canonical = canonical_relationship(relation);
    assert(canonical_of_relationship(*relation, canonical));
    proof {
        let record = choose|record: RelationshipRecord|
            is_reading_of_relationship(*relation, record) && normalizes_relationship(
                record,
                canonical,
            );
        let fields = fields_of(canonical.properties@);
        lemma_listed_keys_are_distinct(record.properties@, fields, relation_key_set(*relation));
        lemma_relationship_object_keys(
            canonical.id,
            canonical.start_id,
            canonical.end_id,
            canonical.rel_type@,
            fields,
        );
    }
    canonical.to_json()
}

/// The JSON value of a property of a relationship within a path: that of
/// the first read that succeeded, in the order text, integer, float,
/// boolean; null where none did.
pub open spec fn unbounded_property_json(reads: ScalarReads) -> JsonModel {
    if let Some(s) = reads.text {
        JsonModel::String(s@)
    } else if let Some(i) = reads.integer {
        JsonModel::Integer(i)
    } else if let Some(f) = reads.float {
        JsonModel::Float(f)
    } else if let Some(b) = reads.boolean {
        JsonModel::Bool(b)
    } else {
        JsonModel::Null
    }
}

/// The JSON value of a property of a relationship within a path, from its
/// typed reads.
pub fn unbounded_property_value(reads: ScalarReads) -> (value: JsonValue)
    ensures
        value@ == unbounded_property_json(reads),
        is_relationship_property_json(value@),
{
    if let Some(s) = reads.text {
        JsonValue::String(s)
    } else if let Some(i) = reads.integer {
        JsonValue::Integer(i)
    } else if let Some(f) = reads.float {
        JsonValue::Float(f)
    } else if let Some(b) = reads.boolean {
        JsonValue::Bool(b)
    } else {
        JsonValue::Null
    }
}

/// A relationship within a path as the driver gave it, read into plain
/// values.
#[derive(Debug, PartialEq)]
pub struct UnboundedRecord {
    pub id: i64,
    pub rel_type: String,
    pub properties: Vec<(String, ScalarReads)>,
}

/// A key that the JSON object of a relationship within a path keeps for
/// itself.
pub open spec fn is_unbounded_reserved(key: Seq<char>) -> bool {
    key == "_id"@ || key == "_type"@
}

/// The properties of the record as JSON fields, in order, without those
/// whose key is reserved.
pub open spec fn unbounded_fields(properties: Seq<(String, ScalarReads)>) -> Seq<
    (Seq<char>, JsonModel),
>
    decreases properties.len(),
{
    if properties.len() == 0 {
        Seq::empty()
    } else if is_unbounded_reserved(properties.last().0@) {
        unbounded_fields(properties.drop_last())
    } else {
        unbounded_fields(properties.drop_last()).push(
            (properties.last().0@, unbounded_property_json(properties.last().1)),
        )
    }
}

/// The JSON object of a relationship within a path: `_id`, `_type`, then
/// every property whose key is not one of those two.
pub open spec fn unbounded_object(record: UnboundedRecord) -> JsonModel {
    JsonModel::Object(
        seq![
            ("_id"@, JsonModel::Integer(record.id)),
            ("_type"@, JsonModel::String(record.rel_type@)),
        ] + unbounded_fields(record.properties@),
    )
}

/// The type of a relationship within a path; the empty text where it cannot
/// be read.
pub open spec fn unbounded_type_or_empty(relation: neo4rs::UnboundedRelation) -> Seq<char> {
    match unbounded_type_text(relation) {
        Some(name) => name,
        None => Seq::empty(),
    }
}

/// `record` is a reading of `relation`: it has the relationship's id and
/// type, one entry for each property key, and under each key what the
/// relationship gives for it.
pub open spec fn is_reading_of_unbounded(
    relation: neo4rs::UnboundedRelation,
    record: UnboundedRecord,
) -> bool {
    &&& record.id == unbounded_identity(relation)
    &&& record.rel_type@ == unbounded_type_or_empty(relation)
    &&& lists_keys(record_keys(record.properties@), unbounded_key_set(relation))
    &&& forall|i: int|
        0 <= i < record.properties@.len() ==> (#[trigger] record.properties@[i]).1
            == unbounded_reads(relation, record.properties@[i].0@)
}

/// `object` is the JSON object of a reading of `relation`.
pub open spec fn is_unbounded_json(relation: neo4rs::UnboundedRelation, object: JsonModel) -> bool {
    exists|record: UnboundedRecord| #[trigger]
        is_reading_of_unbounded(relation, record) && object == unbounded_object(record)
}

/// `object` is the JSON object of the canonical form of a reading of `node`.
pub open spec fn is_node_json(node: neo4rs::Node, object: JsonModel) -> bool {
    exists|canonical: CanonicalNode| #[trigger]
        canonical_of_node(node, canonical) && object == canonical.json()
}

/// Reads a relationship within a path into plain values. A relationship
/// whose type cannot be read has the empty type, and one whose keys cannot
/// be read has no property.
pub fn read_unbounded(relation: &neo4rs::UnboundedRelation) -> (record: UnboundedRecord)
    ensures
        is_reading_of_unbounded(*relation, record),
{
    let id = unbounded_id(relation);
    let rel_type = match unbounded_type(relation) {
        Some(name) => name,
        None => String::new(),
    };
    let keys = match unbounded_keys(relation) {
        Some(keys) => keys,
        None => Vec::new(),
    };
    let ghost listed = texts_model(keys@);
    assert(lists_keys(listed, unbounded_key_set(*relation)));
    let n = keys.len();
    let mut back = reversed(keys);
    let mut properties: Vec<(String, ScalarReads)> = Vec::new();
    while properties.len() < n
        invariant
            n == listed.len(),
            properties@.len() <= n,
            back@.len() == n - properties@.len(),
            forall|j: int| 0 <= j < back@.len() ==> (#[trigger] back@[j])@ == listed[n - 1 - j],
            forall|j: int|
                0 <= j < properties@.len() ==> (#[trigger] properties@[j]).0@ == listed[j]
                    && properties@[j].1 == unbounded_reads(*relation, listed[j]),
        decreases n - properties@.len(),
    {
        let key = back.pop().unwrap();
        let reads = unbounded_property(relation, key.as_str());
        properties.push((key, reads));
    }
    assert(record_keys(properties@) =~= listed);
    UnboundedRecord { id, rel_type, properties }
}

/// The JSON object of the record of a relationship within a path.
pub fn unbounded_record_to_json(record: UnboundedRecord) -> (object: JsonValue)
    ensures
        object@ == unbounded_object(record),
{
    let UnboundedRecord { id, rel_type, properties } = record;
    let ghost given = properties@;
    let ghost head = seq![
        ("_id"@, JsonModel::Integer(id)),
        ("_type"@, JsonModel::String(rel_type@)),
    ];
    let mut fields: Vec<(String, JsonValue)> = Vec::new();
    fields.push((String::from_str("_id"), JsonValue::Integer(id)));
    fields.push((String::from_str("_type"), JsonValue::String(rel_type)));
    assert(fields_of(fields@) =~= head);
    let n = properties.len();
    let mut back = reversed(properties);
    let mut done: usize = 0;
    assert(given.take(0) =~= Seq::empty());
    while done < n
        invariant
            n == given.len(),
            done <= n,
            back@.len() == n - done,
            forall|j: int| 0 <= j < back@.len() ==> back@[j] == given[n - 1 - j],
            fields_of(fields@) == head + unbounded_fields(given.take(done as int)),
        decreases n - done,
    {
        let ghost before = fields_of(fields@);
        let (key, reads) = back.pop().unwrap();
        proof {
            let longer = given.take(done + 1);
            assert(longer.drop_last() =~= given.take(done as int));
            assert(longer.last() == given[done as int]);
        }
        if !(same_text(key.as_str(), "_id") || same_text(key.as_str(), "_type")) {
            let value = unbounded_property_value(reads);
            fields.push((key, value));
            assert(fields_of(fields@) =~= before.push(
                (given[done as int].0@, unbounded_property_json(given[done as int].1)),
            ));
            assert(fields_of(fields@) =~= head + unbounded_fields(given.take(done + 1)));
        }
        done = done + 1;
    }
    assert(given.take(n as int) =~= given);
    JsonValue::object(fields)
}

/// The JSON object of a relationship within a path: that of a reading of
/// the relationship.
pub fn unbounded_rel_to_json(relation: &neo4rs::UnboundedRelation) -> (object: JsonValue)
    ensures
        is_unbounded_json(*relation, object@),
{
    let record = read_unbounded(relation);
    let object = unbounded_record_to_json(record);
    assert(is_reading_of_unbounded(*relation, record) && object@ == unbounded_object(record));
    object
}

/// The JSON of a path from the JSON of its nodes and of its relationships.
pub open spec fn path_object(nodes: Seq<JsonModel>, relationships: Seq<JsonModel>) -> JsonModel {
    JsonModel::Object(
        seq![
            ("_type"@, JsonModel::String("path"@)),
            ("nodes"@, JsonModel::Array(nodes)),
            ("relationships"@, JsonModel::Array(relationships)),
        ],
    )
}

/// The nodes of a path; none where they cannot be read.
pub open spec fn path_nodes_or_none(path: neo4rs::Path) -> Seq<neo4rs::Node> {
    match path_node_list(path) {
        Some(nodes) => nodes,
        None => Seq::empty(),
    }
}

/// The relationships of a path; none where they cannot be read.
pub open spec fn path_relationships_or_none(path: neo4rs::Path) -> Seq<neo4rs::UnboundedRelation> {
    match path_relationship_list(path) {
        Some(relationships) => relationships,
        None => Seq::empty(),
    }
}

/// `objects` are the JSON objects of the nodes, one for one.
pub open spec fn are_node_jsons(nodes: Seq<neo4rs::Node>, objects: Seq<JsonModel>) -> bool {
    objects.len() == nodes.len() && forall|i: int|
        0 <= i < nodes.len() ==> is_node_json(nodes[i], #[trigger] objects[i])
}

/// `objects` are the JSON objects of the relationships, one for one.
pub open spec fn are_unbounded_jsons(
    relationships: Seq<neo4rs::UnboundedRelation>,
    objects: Seq<JsonModel>,
) -> bool {
    objects.len() == relationships.len() && forall|i: int|
        0 <= i < relationships.len() ==> is_unbounded_json(
            relationships[i],
            #[trigger] objects[i],
        )
}

/// The JSON of a path: its nodes and its relationships as JSON objects, in
/// the order of the path.
pub fn path_to_json(path: &neo4rs::Path) -> (object: JsonValue)
    ensures
        exists|nodes: Seq<JsonModel>, relationships: Seq<JsonModel>|
            are_node_jsons(path_nodes_or_none(*path), nodes) && are_unbounded_jsons(
                path_relationships_or_none(*path),
                relationships,
            ) && object@ == #[trigger] path_object(nodes, relationships),
{
    let nodes = match path_nodes(path) {
        Some(nodes) => nodes,
        None => Vec::new(),
    };
    let relationships = match path_relationships(path) {
        Some(relationships) => relationships,
        None => Vec::new(),
    };
    assert(nodes@ =~= path_nodes_or_none(*path));
    assert(relationships@ =~= path_relationships_or_none(*path));
    let mut node_objects: Vec<JsonValue> = Vec::new();
    let mut i: usize = 0;
    while i < nodes.len()
        invariant
            i <= nodes@.len(),
            node_objects@.len() == i,
            forall|j: int| 0 <= j < i ==> is_node_json(nodes@[j], (#[trigger] node_objects@[j])@),
        decreases nodes@.len() - i,
    {
        node_objects.push(node_to_json(&nodes[i]));
        i = i + 1;
    }
    let mut relationship_objects: Vec<JsonValue> = Vec::new();
    let mut k: usize = 0;
    while k < relationships.len()
        invariant
            k <= relationships@.len(),
            relationship_objects@.len() == k,
            forall|j: int|
                0 <= j < k ==> is_unbounded_json(
                    relationships@[j],
                    (#[trigger] relationship_objects@[j])@,
                ),
        decreases relationships@.len() - k,
    {
        relationship_objects.push(unbounded_rel_to_json(&relationships[k]));
        k = k + 1;
    }
    let ghost node_models = models_of(node_objects@);
    let ghost relationship_models = models_of(relationship_objects@);
    assert(are_node_jsons(nodes@, node_models)) by {
        assert forall|j: int| 0 <= j < nodes@.len() implies is_node_json(
            nodes@[j],
            #[trigger] node_models[j],
        ) by {
            assert(node_models[j] == node_objects@[j]@);
        }
    }
    assert(are_unbounded_jsons(relationships@, relationship_models)) by {
        assert forall|j: int| 0 <= j < relationships@.len() implies is_unbounded_json(
            relationships@[j],
            #[trigger] relationship_models[j],
        ) by {
            assert(relationship_models[j] == relationship_objects@[j]@);
        }
    }
    let mut fields: Vec<(String, JsonValue)> = Vec::new();
    fields.push((String::from_str("_type"), JsonValue::string("path")));
    fields.push((String::from_str("nodes"), JsonValue::array(node_objects)));
    fields.push((String::from_str("relationships"), JsonValue::array(relationship_objects)));
    assert(fields_of(fields@) =~= path_object(node_models, relationship_models)->Object_0);
    let object = JsonValue::object(fields);
    assert(object@ == path_object(node_models, relationship_models));
    object
}

/// The document that a whole row decodes to, or null where the driver cannot
/// decode it.
pub open spec fn document_json(document: Option<serde_json::Value>) -> JsonModel {
    match document {
        Some(d) => JsonModel::Document(d),
        None => JsonModel::Null,
    }
}

/// The document that a whole row decodes to, or null where the driver cannot
/// decode it.
pub fn document_or_null(document: Option<serde_json::Value>) -> (value: JsonValue)
    ensures
        value@ == document_json(document),
{
    match document {
        Some(d) => JsonValue::Document(d),
        None => JsonValue::Null,
    }
}

/// A row of the driver as JSON: the document that the driver decodes it to,
/// or null. A row that cannot be decoded is no failure, and neither is a row
/// that holds a time of day or a date-time on which the decoding gives up.
pub fn row_to_json(row: &neo4rs::Row) -> (value: JsonValue)
    ensures
        value@ == document_json(row_document_of(*row)),
{
    document_or_null(row_document_checked(row))
}

} // verus!
