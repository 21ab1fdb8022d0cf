//! The documents of `serde_json` that the library's JSON values become.
//!
//! An object is built in a `serde_json::Map`, field by field in the order of
//! the fields, so of two fields with the same key the later one stays. What
//! a document and a map hold is given a name each, and the functions that
//! make and fill them claim what `serde_json` documents of them. Those
//! functions are not proved; the conversion is.

use crate::json::{JsonModel, JsonValue};
use crate::order::reversed;
use vstd::prelude::*;

verus! {

/// `serde_json::Map`: the fields of a JSON object, by their keys.
#[verifier::external_type_specification]
#[verifier::external_body]
#[verifier::reject_recursive_types(K)]
#[verifier::reject_recursive_types(V)]
pub struct ExJsonFields<K, V>(serde_json::Map<K, V>);

/// What a document of `serde_json` holds. A number is held by its value,
/// whatever the width it was written in; the fields of an object have no
/// order.
pub enum JsonTree {
    Null,
    Bool(bool),
    Number(int),
    String(Seq<char>),
    Array(Seq<JsonTree>),
    Object(Map<Seq<char>, JsonTree>),
}

/// What a document holds.
pub uninterp spec fn document_tree(document: serde_json::Value) -> JsonTree;

/// What a map of `serde_json` holds under each of its keys.
pub uninterp spec fn fields_tree(fields: serde_json::Map<String, serde_json::Value>) -> Map<
    Seq<char>,
    JsonTree,
>;

/// What a floating-point number becomes as a document: a number, or null
/// where it is not finite.
pub uninterp spec fn float_tree(float: neo4rs::BoltFloat) -> JsonTree;

/// What the documents hold, one for one.
pub open spec fn trees_of(documents: Seq<serde_json::Value>) -> Seq<JsonTree> {
    Seq::new(documents.len(), |i: int| document_tree(documents[i]))
}

/// The fields gathered by their keys, in order: a later field takes the
/// place of an earlier one with the same key.
pub open spec fn gathered(fields: Seq<(Seq<char>, JsonTree)>) -> Map<Seq<char>, JsonTree>
    decreases fields.len(),
{
    if fields.len() == 0 {
        Map::empty()
    } else {
        gathered(fields.drop_last()).insert(fields.last().0, fields.last().1)
    }
}

/// What the document of a JSON value holds.
pub open spec fn tree_of(value: JsonModel) -> JsonTree
    decreases value,
{
    match value {
        JsonModel::Null => JsonTree::Null,
        JsonModel::Bool(b) => JsonTree::Bool(b),
        JsonModel::Integer(i) => JsonTree::Number(i as int),
        JsonModel::Unsigned(u) => JsonTree::Number(u as int),
        JsonModel::Float(f) => float_tree(f),
        JsonModel::String(s) => JsonTree::String(s),
        JsonModel::Array(items) => JsonTree::Array(
            Seq::new(
                items.len(),
                |i: int|
                    if 0 <= i < items.len() {
                        tree_of(items[i])
                    } else {
                        JsonTree::Null
                    },
            ),
        ),
        JsonModel::Object(fields) => JsonTree::Object(gathered(field_trees(fields))),
        JsonModel::Document(d) => document_tree(d),
    }
}

/// What the documents of the fields of an object hold, one for one.
pub open spec fn field_trees(fields: Seq<(Seq<char>, JsonModel)>) -> Seq<(Seq<char>, JsonTree)>
    decreases fields,
{
    Seq::new(
        fields.len(),
        |i: int|
            if 0 <= i < fields.len() {
                (fields[i].0, tree_of(fields[i].1))
            } else {
                (Seq::empty(), JsonTree::Null)
            },
    )
}

/// `serde_json::Value::Null`. Claimed: the document holds null.
#[verifier::external_body]
fn null_document() -> (document: serde_json::Value)
    ensures
        document_tree(document) == JsonTree::Null,
{
    serde_json::Value::Null
}

/// `serde_json::Value::Bool`. Claimed: the document holds the boolean.
#[verifier::external_body]
fn bool_document(value: bool) -> (document: serde_json::Value)
    ensures
        document_tree(document) == JsonTree::Bool(value),
{
    serde_json::Value::Bool(value)
}

/// `serde_json::Value`'s `from` for `i64`. Claimed: the document holds the
/// number.
#[verifier::external_body]
fn integer_document(value: i64) -> (document: serde_json::Value)
    ensures
        document_tree(document) == JsonTree::Number(value as int),
{
    serde_json::Value::from(value)
}

/// `serde_json::Value`'s `from` for `u64`. Claimed: the document holds the
/// number.
#[verifier::external_body]
fn unsigned_document(value: u64) -> (document: serde_json::Value)
    ensures
        document_tree(document) == JsonTree::Number(value as int),
{
    serde_json::Value::from(value)
}

/// `serde_json::Value`'s `from` for the float that the driver's float
/// holds: a number, or null where the float is not finite. Claimed: what the
/// document holds depends on the float alone.
#[verifier::external_body]
fn float_document(value: neo4rs::BoltFloat) -> (document: serde_json::Value)
    ensures
        document_tree(document) == float_tree(value),
{
    serde_json::Value::from(value.value)
}

/// `serde_json::Value::String`. Claimed: the document holds the text.
#[verifier::external_body]
fn string_document(value: String) -> (document: serde_json::Value)
    ensures
        document_tree(document) == JsonTree::String(value@),
{
    serde_json::Value::String(value)
}

/// `serde_json::Value::Array`. Claimed: the document holds what the items
/// hold, in their order.
#[verifier::external_body]
fn array_document(items: Vec<serde_json::Value>) -> (document: serde_json::Value)
    ensures
        document_tree(document) == JsonTree::Array(trees_of(items@)),
{
    serde_json::Value::Array(items)
}

/// `serde_json::Value::Object`. Claimed: the document holds what the map
/// holds.
#[verifier::external_body]
fn object_document(fields: serde_json::Map<String, serde_json::Value>) -> (document:
    serde_json::Value)
    ensures
        document_tree(document) == JsonTree::Object(fields_tree(fields)),
{
    serde_json::Value::Object(fields)
}

/// `serde_json::Map::new`. Claimed: the map holds nothing.
#[verifier::external_body]
fn no_fields() -> (fields: serde_json::Map<String, serde_json::Value>)
    ensures
        fields_tree(fields) == gathered(Seq::empty()),
{
    serde_json::Map::new()
}

/// `serde_json::Map::insert`. Claimed: the map then holds the value under
/// the key, in place of what it held there, and all else as before.
#[verifier::external_body]
fn put_field(
    fields: &mut serde_json::Map<String, serde_json::Value>,
    key: String,
    value: serde_json::Value,
)
    ensures
        fields_tree(*final(fields)) == fields_tree(*old(fields)).insert(
            key@,
            document_tree(value),
        ),
{
    fields.insert(key, value);
}

/// Gathered by their keys, fields of which no two have the same key are all
/// there: the map holds each field's value under its key, and no other key.
pub proof fn law_distinct_fields_are_kept(fields: Seq<(Seq<char>, JsonTree)>)
    requires
        forall|i: int, j: int|
            0 <= i < j < fields.len() ==> (#[trigger] fields[i]).0 != (#[trigger] fields[j]).0,
    ensures
        forall|i: int|
            0 <= i < fields.len() ==> gathered(fields).contains_key((#[trigger] fields[i]).0)
                && gathered(fields)[fields[i].0] == fields[i].1,
        forall|key: Seq<char>| #[trigger]
            gathered(fields).contains_key(key) ==> exists|i: int|
                0 <= i < fields.len() && (#[trigger] fields[i]).0 == key,
    decreases fields.len(),
{
    if fields.len() > 0 {
        let shorter = fields.drop_last();
        assert forall|i: int, j: int| 0 <= i < j < shorter.len() implies (#[trigger] shorter[i]).0
            != (#[trigger] shorter[j]).0 by {
            assert(fields[i].0 != fields[j].0);
        }
        law_distinct_fields_are_kept(shorter);
        let last = fields.len() - 1;
        assert forall|i: int| 0 <= i < fields.len() implies gathered(fields).contains_key(
            (#[trigger] fields[i]).0,
        ) && gathered(fields)[fields[i].0] == fields[i].1 by {
            if i < last {
                assert(shorter[i] == fields[i]);
                assert(fields[i].0 != fields[last].0);
            }
        }
        assert forall|key: Seq<char>| #[trigger]
            gathered(fields).contains_key(key) implies exists|i: int|
            0 <= i < fields.len() && (#[trigger] fields[i]).0 == key by {
            if key == fields[last].0 {
                assert(fields[last].0 == key);
            } else {
                assert(gathered(shorter).contains_key(key));
                let i = choose|i: int| 0 <= i < shorter.len() && (#[trigger] shorter[i]).0 == key;
                assert(fields[i].0 == key);
            }
        }
    }
}

/// The document of `serde_json` for a JSON value of this library.
pub fn to_document(value: JsonValue) -> (document: serde_json::Value)
    ensures
        document_tree(document) == tree_of(value@),
    decreases value,
{
    match value {
        JsonValue::Null => null_document(),
        JsonValue::Bool(b) => bool_document(b),
        JsonValue::Integer(i) => integer_document(i),
        JsonValue::Unsigned(u) => unsigned_document(u),
        JsonValue::Float(f) => float_document(f),
        JsonValue::String(s) => string_document(s),
        JsonValue::Array(items) => {
            let ghost given = items;
            let ghost all = items@;
            let n = items.len();
            let mut back = reversed(items);
            let mut documents: Vec<serde_json::Value> = Vec::new();
            while documents.len() < n
                invariant
                    n == all.len(),
                    value == JsonValue::Array(given),
                    all == given@,
                    documents@.len() <= n,
                    back@.len() == n - documents@.len(),
                    forall|j: int| 0 <= j < back@.len() ==> back@[j] == all[n - 1 - j],
                    forall|j: int|
                        0 <= j < documents@.len() ==> document_tree(#[trigger] documents@[j])
                            == tree_of(all[j]@),
                decreases n - documents@.len(),
            {
                let ghost k = documents@.len() as int;
                let item = back.pop().unwrap();
                proof {
                    assert(item == given@[k]);
                    assert(value->Array_0 == given);
                    assert(decreases_to!(value => value->Array_0));
                    assert(decreases_to!(given => given[k]));
                }
                documents.push(to_document(item));
            }
            let document = array_document(documents);
            proof {
                let models = value@->Array_0;
                assert(models.len() == n);
                assert forall|j: int| 0 <= j < n implies models[j] == all[j]@ by {}
                assert(trees_of(documents@) =~= tree_of(value@)->Array_0);
            }
            document
        },
        JsonValue::Object(fields) => {
            let ghost given = fields;
            let ghost all = fields@;
            let ghost trees = Seq::new(all.len(), |i: int| (all[i].0@, tree_of(all[i].1@)));
            let n = fields.len();
            let mut back = reversed(fields);
            let mut held = no_fields();
            let mut done: usize = 0;
            assert(trees.take(0) =~= Seq::empty());
            while done < n
                invariant
                    n == all.len(),
                    value == JsonValue::Object(given),
                    all == given@,
                    trees == Seq::new(all.len(), |i: int| (all[i].0@, tree_of(all[i].1@))),
                    done <= n,
                    back@.len() == n - done,
                    forall|j: int| 0 <= j < back@.len() ==> back@[j] == all[n - 1 - j],
                    fields_tree(held) == gathered(trees.take(done as int)),
                decreases n - done,
            {
                let (key, item) = back.pop().unwrap();
                proof {
                    let longer = trees.take(done + 1);
                    assert(longer.drop_last() =~= trees.take(done as int));
                    assert(longer.last() == trees[done as int]);
                    assert((key, item) == given@[done as int]);
                    assert(value->Object_0 == given);
                    assert(decreases_to!(value => value->Object_0));
                    assert(decreases_to!(given => given[done as int]));
                    assert(decreases_to!(given[done as int] => given[done as int].1));
                }
                let inner = to_document(item);
                put_field(&mut held, key, inner);
                done = done + 1;
            }
            proof {
                let models = value@->Object_0;
                assert(models.len() == n);
                assert(trees.take(n as int) =~= trees);
                assert forall|j: int| 0 <= j < n implies models[j] == (all[j].0@, all[j].1@) by {}
                assert(trees =~= field_trees(models));
            }
            object_document(held)
        },
        JsonValue::Document(d) => d,
    }
}

} // verus!
