//! JSON documents, as plain data that the decoding rules can read.

use vstd::prelude::*;
use crate::text::str_equal;

verus! {

/// A JSON value. A number is kept as the text that `serde_json` prints for
/// it; an object as its fields, each key once.
pub enum JsonValue {
    Null,
    Bool(bool),
    Number(String),
    Text(String),
    Array(Vec<JsonValue>),
    Object(Vec<JsonField>),
}

/// One field of a JSON object.
pub struct JsonField {
    pub key: String,
    pub value: JsonValue,
}

/// The kinds of JSON values.
#[derive(Clone, Copy, Debug, PartialEq, Eq, Structural)]
pub enum JsonKind {
    Null,
    Bool,
    Number,
    Text,
    Array,
    Object,
}

impl JsonKind {
    /// The name of the kind, as a text.
    pub open spec fn name_of(self) -> Seq<char> {
        match self {
            JsonKind::Null => "Null"@,
            JsonKind::Bool => "Bool"@,
            JsonKind::Number => "Number"@,
            JsonKind::Text => "String"@,
            JsonKind::Array => "Array"@,
            JsonKind::Object => "Object"@,
        }
    }

    /// The name of the kind.
    pub fn name(&self) -> (name: &'static str)
        ensures
            name@ == self.name_of(),
    {
        match self {
            JsonKind::Null => "Null",
            JsonKind::Bool => "Bool",
            JsonKind::Number => "Number",
            JsonKind::Text => "String",
            JsonKind::Array => "Array",
            JsonKind::Object => "Object",
        }
    }
}

/// `serde_json::Value`, taken as it is: it is only carried from the parser
/// to the conversion into plain data.
#[verifier::external_type_specification]
#[verifier::external_body]
pub struct ExValue(serde_json::Value);

/// The value that `serde_json` reads from a body, where it accepts the body.
pub uninterp spec fn parsed_value(body: Seq<u8>) -> Option<serde_json::Value>;

/// A value of `serde_json` as plain data.
pub uninterp spec fn plain_value(value: serde_json::Value) -> JsonValue;

/// The document that a body holds, where `serde_json` accepts the body.
pub open spec fn parsed_json(body: Seq<u8>) -> Option<JsonValue> {
    match parsed_value(body) {
        Some(value) => Some(plain_value(value)),
        None => None,
    }
}

/// Calls `serde_json::from_slice` for a `serde_json::Value`: whether the body
/// is accepted, and the value it then holds, depend on the bytes alone.
#[verifier::external_body]
pub(crate) fn parse_value(body: &[u8]) -> (value: Option<serde_json::Value>)
    ensures
        value == parsed_value(body@),
{
    serde_json::from_slice::<serde_json::Value>(body).ok()
}

/// Turns a `serde_json::Value` into a `JsonValue`, variant by variant; a
/// number becomes what `serde_json::Number` prints for it. The plain value
/// depends on the value alone.
#[verifier::external_body]
pub(crate) fn from_outside(value: serde_json::Value) -> (plain: JsonValue)
    ensures
        plain == plain_value(value),
{
    match value {
        serde_json::Value::Null => JsonValue::Null,
        serde_json::Value::Bool(b) => JsonValue::Bool(b),
        serde_json::Value::Number(n) => JsonValue::Number(n.to_string()),
        serde_json::Value::String(s) => JsonValue::Text(s),
        serde_json::Value::Array(items) => JsonValue::Array(
            items.into_iter().map(from_outside).collect(),
        ),
        serde_json::Value::Object(fields) => JsonValue::Object(
            fields.into_iter().map(|(key, v)| JsonField { key, value: from_outside(v) }).collect(),
        ),
    }
}

/// The kind of a value.
pub open spec fn kind_of(value: JsonValue) -> JsonKind {
    match value {
        JsonValue::Null => JsonKind::Null,
        JsonValue::Bool(_) => JsonKind::Bool,
        JsonValue::Number(_) => JsonKind::Number,
        JsonValue::Text(_) => JsonKind::Text,
        JsonValue::Array(_) => JsonKind::Array,
        JsonValue::Object(_) => JsonKind::Object,
    }
}

/// The value of the first field with the key, if there is one.
pub open spec fn field_of(fields: Seq<JsonField>, key: Seq<char>) -> Option<JsonValue>
    decreases fields.len(),
{
    if fields.len() == 0 {
        None
    } else if fields[0].key@ == key {
        Some(fields[0].value)
    } else {
        field_of(fields.drop_first(), key)
    }
}

impl JsonValue {
    /// The kind of the value.
    pub fn kind(&self) -> (kind: JsonKind)
        ensures
            kind == kind_of(*self),
    {
        match self {
            JsonValue::Null => JsonKind::Null,
            JsonValue::Bool(_) => JsonKind::Bool,
            JsonValue::Number(_) => JsonKind::Number,
            JsonValue::Text(_) => JsonKind::Text,
            JsonValue::Array(_) => JsonKind::Array,
            JsonValue::Object(_) => JsonKind::Object,
        }
    }

    /// Reads a body as a JSON document.
    pub fn parse(body: &[u8]) -> (document: Option<JsonValue>)
        ensures
            document == parsed_json(body@),
    {
        match parse_value(body) {
            Some(value) => Some(from_outside(value)),
            None => None,
        }
    }
}

/// Looks a key up among the fields of an object.
pub fn get_field<'a>(fields: &'a Vec<JsonField>, key: &str) -> (value: Option<&'a JsonValue>)
    ensures
        match value {
            Some(v) => field_of(fields@, key@) == Some(*v),
            None => field_of(fields@, key@) is None,
        },
{
    let mut i: usize = 0;
    assert(fields@.subrange(0, fields@.len() as int) =~= fields@);
    while i < fields.len()
        invariant
            i <= fields.len(),
            field_of(fields@, key@) == field_of(
                fields@.subrange(i as int, fields@.len() as int),
                key@,
            ),
        decreases fields.len() - i,
    {
        let ghost rest = fields@.subrange(i as int, fields@.len() as int);
        assert(rest[0] == fields@[i as int]);
        if str_equal(fields[i].key.as_str(), key) {
            return Some(&fields[i].value);
        }
        assert(rest.drop_first() =~= fields@.subrange(i + 1, fields@.len() as int));
        i = i + 1;
    }
    None
}

} // verus!
