//! JSON as this library holds it: the documents it builds, and the property
//! objects it is given as text.

use crate::order::reversed;
use vstd::prelude::*;
use vstd::string::*;

verus! {

/// `serde_json::Number`: a JSON number as it was parsed. It is carried and
/// never looked into.
#[verifier::external_type_specification]
#[verifier::external_body]
pub struct ExJsonNumber(serde_json::Number);

/// `serde_json::Value`: a JSON document that the driver decoded. It is
/// carried and never looked into.
#[verifier::external_type_specification]
#[verifier::external_body]
pub struct ExJsonDocument(serde_json::Value);

/// `neo4rs::BoltFloat`: a floating-point number as the driver read it. It is
/// carried and never looked into.
#[verifier::external_type_specification]
#[verifier::external_body]
pub struct ExDriverFloat(neo4rs::BoltFloat);

/// A JSON document built by this library.
///
/// A floating-point number is never looked into: it is carried as the driver
/// read it. So is a document that the driver decoded as a whole.
#[derive(Debug, PartialEq)]
pub enum JsonValue {
    Null,
    Bool(bool),
    Integer(i64),
    Unsigned(u64),
    Float(neo4rs::BoltFloat),
    String(String),
    Array(Vec<JsonValue>),
    Object(Vec<(String, JsonValue)>),
    Document(serde_json::Value),
}

/// What a `JsonValue` is, as mathematics. The fields of an object keep the
/// order in which they were written.
#[verifier::ext_equal]
pub enum JsonModel {
    Null,
    Bool(bool),
    Integer(i64),
    Unsigned(u64),
    Float(neo4rs::BoltFloat),
    String(Seq<char>),
    Array(Seq<JsonModel>),
    Object(Seq<(Seq<char>, JsonModel)>),
    Document(serde_json::Value),
}

/// The model of a document.
pub open spec fn json_model(value: JsonValue) -> JsonModel
    decreases value,
{
    match value {
        JsonValue::Null => JsonModel::Null,
        JsonValue::Bool(b) => JsonModel::Bool(b),
        JsonValue::Integer(i) => JsonModel::Integer(i),
        JsonValue::Unsigned(u) => JsonModel::Unsigned(u),
        JsonValue::Float(f) => JsonModel::Float(f),
        JsonValue::String(s) => JsonModel::String(s@),
        JsonValue::Array(items) => JsonModel::Array(
            Seq::new(
                items@.len(),
                |i: int|
                    if 0 <= i < items@.len() {
                        json_model(items@[i])
                    } else {
                        JsonModel::Null
                    },
            ),
        ),
        JsonValue::Object(fields) => JsonModel::Object(
            Seq::new(
                fields@.len(),
                |i: int|
                    if 0 <= i < fields@.len() {
                        (fields@[i].0@, json_model(fields@[i].1))
                    } else {
                        (Seq::empty(), JsonModel::Null)
                    },
            ),
        ),
        JsonValue::Document(d) => JsonModel::Document(d),
    }
}

impl View for JsonValue {
    type V = JsonModel;

    open spec fn view(&self) -> JsonModel {
        json_model(*self)
    }
}

/// The models of a sequence of documents.
pub open spec fn models_of(items: Seq<JsonValue>) -> Seq<JsonModel> {
    Seq::new(items.len(), |i: int| items[i]@)
}

/// The models of the fields of an object.
pub open spec fn fields_of(fields: Seq<(String, JsonValue)>) -> Seq<(Seq<char>, JsonModel)> {
    Seq::new(fields.len(), |i: int| (fields[i].0@, fields[i].1@))
}

/// The JSON strings of a sequence of texts.
pub open spec fn strings_model(texts: Seq<String>) -> Seq<JsonModel> {
    Seq::new(texts.len(), |i: int| JsonModel::String(texts[i]@))
}

/// The JSON integers of a sequence of integers.
pub open spec fn integers_model(values: Seq<i64>) -> Seq<JsonModel> {
    Seq::new(values.len(), |i: int| JsonModel::Integer(values[i]))
}

impl JsonValue {
    /// A JSON string with the characters of `text`.
    pub fn string(text: &str) -> (value: JsonValue)
        ensures
            value@ == JsonModel::String(text@),
    {
        JsonValue::String(String::from_str(text))
    }

    /// A JSON array of the given items, in their order.
    pub fn array(items: Vec<JsonValue>) -> (value: JsonValue)
        ensures
            value@ == JsonModel::Array(models_of(items@)),
    {
        let value = JsonValue::Array(items);
        assert(value@->Array_0 =~= models_of(items@));
        value
    }

    /// A JSON object of the given fields, in their order.
    pub fn object(fields: Vec<(String, JsonValue)>) -> (value: JsonValue)
        ensures
            value@ == JsonModel::Object(fields_of(fields@)),
    {
        let value = JsonValue::Object(fields);
        assert(value@->Object_0 =~= fields_of(fields@));
        value
    }

    /// A JSON array of strings.
    pub fn strings(texts: Vec<String>) -> (value: JsonValue)
        ensures
            value@ == JsonModel::Array(strings_model(texts@)),
    {
        let ghost all = texts@;
        let n = texts.len();
        let mut back = reversed(texts);
        let mut items: Vec<JsonValue> = Vec::new();
        while items.len() < n
            invariant
                n == all.len(),
                items@.len() <= n,
                back@.len() == n - items@.len(),
                forall|j: int| 0 <= j < back@.len() ==> back@[j] == all[n - 1 - j],
                forall|j: int|
                    0 <= j < items@.len() ==> (#[trigger] items@[j])@ == JsonModel::String(
                        all[j]@,
                    ),
            decreases n - items@.len(),
        {
            let text = back.pop().unwrap();
            items.push(JsonValue::String(text));
        }
        let value = JsonValue::Array(items);
        assert(value@->Array_0 =~= strings_model(all));
        value
    }

    /// A JSON array of integers.
    pub fn integers(values: &Vec<i64>) -> (value: JsonValue)
        ensures
            value@ == JsonModel::Array(integers_model(values@)),
    {
        let mut items: Vec<JsonValue> = Vec::new();
        let mut i: usize = 0;
        while i < values.len()
            invariant
                i <= values@.len(),
                items@.len() == i,
                forall|j: int| 0 <= j < i ==> items@[j]@ == JsonModel::Integer(values@[j]),
            decreases values@.len() - i,
        {
            items.push(JsonValue::Integer(values[i]));
            i = i + 1;
        }
        let value = JsonValue::Array(items);
        assert(value@->Array_0 =~= integers_model(values@));
        value
    }
}

/// One field of an object: its key and its value.
pub fn field(key: &str, value: JsonValue) -> (pair: (String, JsonValue))
    ensures
        pair.0@ == key@,
        pair.1 == value,
{
    (String::from_str(key), value)
}

/// A value of a JSON object that the caller wrote, by its JSON kind.
///
/// A number is carried as it was parsed, beside the integer of 64 bits that
/// it is, if it is one. A null, an array or an object is held as the text
/// that renders it.
#[derive(Debug, PartialEq)]
pub enum JsonEntry {
    Null(String),
    Bool(bool),
    Number { integer: Option<i64>, number: serde_json::Number },
    String(String),
    Array(String),
    Object(String),
}

/// What a `JsonEntry` is, as mathematics.
pub enum JsonEntryModel {
    Null(Seq<char>),
    Bool(bool),
    Number { integer: Option<i64>, number: serde_json::Number },
    String(Seq<char>),
    Array(Seq<char>),
    Object(Seq<char>),
}

impl View for JsonEntry {
    type V = JsonEntryModel;

    open spec fn view(&self) -> JsonEntryModel {
        match self {
            JsonEntry::Null(t) => JsonEntryModel::Null(t@),
            JsonEntry::Bool(b) => JsonEntryModel::Bool(*b),
            JsonEntry::Number { integer, number } => JsonEntryModel::Number {
                integer: *integer,
                number: *number,
            },
            JsonEntry::String(s) => JsonEntryModel::String(s@),
            JsonEntry::Array(t) => JsonEntryModel::Array(t@),
            JsonEntry::Object(t) => JsonEntryModel::Object(t@),
        }
    }
}

/// The models of the entries of a JSON object.
pub open spec fn entries_model(entries: Seq<(String, JsonEntry)>) -> Seq<
    (Seq<char>, JsonEntryModel),
> {
    Seq::new(entries.len(), |i: int| (entries[i].0@, entries[i].1@))
}

/// A JSON value as `serde_json` holds it, by its variant: a boolean, a
/// number and a string with what they hold.
#[derive(Debug, PartialEq)]
pub enum JsonVariant {
    Null,
    Bool(bool),
    Number(serde_json::Number),
    String(String),
    Array,
    Object,
}

/// What `serde_json` makes of a text that is read as a JSON object: the keys
/// and values of the object in the order in which its map yields them, or
/// the parser's description of why the text is no JSON object.
pub uninterp spec fn json_object_values(text: Seq<char>) -> Result<
    Seq<(Seq<char>, serde_json::Value)>,
    Seq<char>,
>;

/// The variant of a JSON value, with what it holds.
pub uninterp spec fn json_variant_of(value: serde_json::Value) -> JsonVariant;

/// The integer of 64 bits that a JSON number is, if it is one.
pub uninterp spec fn number_as_integer(number: serde_json::Number) -> Option<i64>;

/// The text that renders a JSON value.
pub uninterp spec fn json_rendering(value: serde_json::Value) -> Seq<char>;

/// The keys and values of a JSON object, as mathematics.
pub open spec fn values_model(values: Seq<(String, serde_json::Value)>) -> Seq<
    (Seq<char>, serde_json::Value),
> {
    Seq::new(values.len(), |i: int| (values[i].0@, values[i].1))
}

/// A value of a JSON object by its kind: a number with the integer that it
/// is, if it is one; a null, an array and an object as the text that renders
/// them.
pub open spec fn entry_of(value: serde_json::Value) -> JsonEntryModel {
    match json_variant_of(value) {
        JsonVariant::Null => JsonEntryModel::Null(json_rendering(value)),
        JsonVariant::Bool(b) => JsonEntryModel::Bool(b),
        JsonVariant::Number(n) => JsonEntryModel::Number {
            integer: number_as_integer(n),
            number: n,
        },
        JsonVariant::String(s) => JsonEntryModel::String(s@),
        JsonVariant::Array => JsonEntryModel::Array(json_rendering(value)),
        JsonVariant::Object => JsonEntryModel::Object(json_rendering(value)),
    }
}

/// The values of a JSON object by their kinds, one for one.
pub open spec fn entries_of(values: Seq<(Seq<char>, serde_json::Value)>) -> Seq<
    (Seq<char>, JsonEntryModel),
> {
    Seq::new(values.len(), |i: int| (values[i].0, entry_of(values[i].1)))
}

/// What a text gives when it is read as a JSON object: its entries by their
/// kinds, in the order in which the parser's map yields them, or the
/// parser's description of why the text is no JSON object.
pub open spec fn json_object_entries(text: Seq<char>) -> Result<
    Seq<(Seq<char>, JsonEntryModel)>,
    Seq<char>,
> {
    match json_object_values(text) {
        Ok(values) => Ok(entries_of(values)),
        Err(why) => Err(why),
    }
}

/// Reads `text` as a JSON object, with `serde_json::from_str` for a
/// `serde_json::Map<String, serde_json::Value>`; a failure is handed on as
/// the text of the `serde_json::Error`. Claimed: the outcome depends on the
/// text alone.
#[verifier::external_body]
pub(crate) fn parse_json_object(text: &str) -> (outcome: Result<
    Vec<(String, serde_json::Value)>,
    String,
>)
    ensures
        match outcome {
            Ok(values) => json_object_values(text@) == Ok::<
                Seq<(Seq<char>, serde_json::Value)>,
                Seq<char>,
            >(values_model(values@)),
            Err(why) => json_object_values(text@) == Err::<
                Seq<(Seq<char>, serde_json::Value)>,
                Seq<char>,
            >(why@),
        },
{
    match serde_json::from_str::<serde_json::Map<String, serde_json::Value>>(text) {
        Ok(map) => Ok(map.into_iter().collect()),
        Err(e) => Err(e.to_string()),
    }
}

/// Tells the variants of `serde_json::Value` apart. Claimed: the result is
/// the variant of the value, with the boolean, the number or the string that
/// it holds.
#[verifier::external_body]
pub(crate) fn json_variant(value: serde_json::Value) -> (variant: JsonVariant)
    ensures
        variant == json_variant_of(value),
{
    match value {
        serde_json::Value::Null => JsonVariant::Null,
        serde_json::Value::Bool(b) => JsonVariant::Bool(b),
        serde_json::Value::Number(n) => JsonVariant::Number(n),
        serde_json::Value::String(s) => JsonVariant::String(s),
        serde_json::Value::Array(_) => JsonVariant::Array,
        serde_json::Value::Object(_) => JsonVariant::Object,
    }
}

/// `serde_json::Number::as_i64`. Claimed: the result is the integer of 64
/// bits that the number is, if it is one.
#[verifier::external_body]
pub(crate) fn number_integer(number: &serde_json::Number) -> (integer: Option<i64>)
    ensures
        integer == number_as_integer(*number),
{
    number.as_i64()
}

/// The text that renders a JSON value: `serde_json::Value`'s `to_string`.
/// Claimed: the text depends on the value alone.
#[verifier::external_body]
pub(crate) fn json_text(value: &serde_json::Value) -> (text: String)
    ensures
        text@ == json_rendering(*value),
{
    value.to_string()
}

/// One value of a JSON object by its kind.
pub(crate) fn json_entry(value: serde_json::Value) -> (entry: JsonEntry)
    ensures
        entry@ == entry_of(value),
{
    let text = json_text(&value);
    match json_variant(value) {
        JsonVariant::Null => JsonEntry::Null(text),
        JsonVariant::Bool(b) => JsonEntry::Bool(b),
        JsonVariant::Number(number) => {
            let integer = number_integer(&number);
            JsonEntry::Number { integer, number }
        },
        JsonVariant::String(s) => JsonEntry::String(s),
        JsonVariant::Array => JsonEntry::Array(text),
        JsonVariant::Object => JsonEntry::Object(text),
    }
}

/// Reads `text` as a JSON object, each value by its kind.
pub(crate) fn read_json_object(text: &str) -> (outcome: Result<Vec<(String, JsonEntry)>, String>)
    ensures
        match outcome {
            Ok(entries) => json_object_entries(text@) == Ok::<
                Seq<(Seq<char>, JsonEntryModel)>,
                Seq<char>,
            >(entries_model(entries@)),
            Err(why) => json_object_entries(text@) == Err::<
                Seq<(Seq<char>, JsonEntryModel)>,
                Seq<char>,
            >(why@),
        },
{
    let values = match parse_json_object(text) {
        Ok(values) => values,
        Err(why) => {
            return Err(why);
        },
    };
    let ghost given = values_model(values@);
    let n = values.len();
    let mut back = reversed(values);
    let mut entries: Vec<(String, JsonEntry)> = Vec::new();
    while entries.len() < n
        invariant
            n == given.len(),
            entries@.len() <= n,
            back@.len() == n - entries@.len(),
            forall|j: int|
                0 <= j < back@.len() ==> (#[trigger] back@[j]).0@ == given[n - 1 - j].0
                    && back@[j].1 == given[n - 1 - j].1,
            forall|j: int|
                0 <= j < entries@.len() ==> (#[trigger] entries@[j]).0@ == given[j].0
                    && entries@[j].1@ == entry_of(given[j].1),
        decreases n - entries@.len(),
    {
        let (key, value) = back.pop().unwrap();
        let entry = json_entry(value);
        entries.push((key, entry));
    }
    assert(entries_model(entries@) =~= entries_of(given));
    Ok(entries)
}

} // verus!
