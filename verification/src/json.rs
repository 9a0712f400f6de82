//! JSON documents as plain data.
//!
//! Parsing is left to `serde_json`; everything that reads a document works on
//! [`Json`], whose view is the mathematical tree [`JsonValue`].

use vstd::prelude::*;

verus! {

/// A JSON document.
#[derive(Debug, PartialEq, Eq)]
pub enum Json {
    Null,
    Bool(bool),
    /// A number, with the integer it denotes where that integer fits `i64`.
    Number(Option<i64>),
    Text(String),
    Array(Vec<Json>),
    /// The members of an object in order, each a key with its value.
    Object(Vec<(String, Json)>),
}

/// The mathematical value of a [`Json`] document.
pub enum JsonValue {
    Null,
    Bool(bool),
    Number(Option<i64>),
    Text(Seq<char>),
    Array(Seq<JsonValue>),
    Object(Seq<(Seq<char>, JsonValue)>),
}

/// The value that a document denotes.
pub open spec fn json_value(json: Json) -> JsonValue
    decreases json,
{
    match json {
        Json::Null => JsonValue::Null,
        Json::Bool(b) => JsonValue::Bool(b),
        Json::Number(n) => JsonValue::Number(n),
        Json::Text(s) => JsonValue::Text(s@),
        Json::Array(items) => JsonValue::Array(
            Seq::new(
                items@.len(),
                |i: int|
                    if 0 <= i < items@.len() {
                        json_value(items@[i])
                    } else {
                        JsonValue::Null
                    },
            ),
        ),
        Json::Object(members) => JsonValue::Object(
            Seq::new(
                members@.len(),
                |i: int|
                    if 0 <= i < members@.len() {
                        (members@[i].0@, json_value(members@[i].1))
                    } else {
                        (Seq::empty(), JsonValue::Null)
                    },
            ),
        ),
    }
}

impl View for Json {
    type V = JsonValue;

    open spec fn view(&self) -> JsonValue {
        json_value(*self)
    }
}

impl JsonValue {
    /// The value of the first member of an object whose key is `key`, looking
    /// from position `start` on.
    pub open spec fn member_from(self, key: Seq<char>, start: int) -> Option<JsonValue>
        decreases
            (if self is Object { self->Object_0.len() - start } else { 0 }),
    {
        if self is Object && 0 <= start < self->Object_0.len() {
            if self->Object_0[start].0 == key {
                Some(self->Object_0[start].1)
            } else {
                self.member_from(key, start + 1)
            }
        } else {
            None
        }
    }

    /// The value of the member `key` of an object; `None` where the value is
    /// no object or has no such member.
    pub open spec fn member(self, key: Seq<char>) -> Option<JsonValue> {
        self.member_from(key, 0)
    }

    /// The characters of a string value.
    pub open spec fn text(self) -> Option<Seq<char>> {
        match self {
            JsonValue::Text(s) => Some(s),
            _ => None,
        }
    }

    /// The elements of an array value.
    pub open spec fn items(self) -> Option<Seq<JsonValue>> {
        match self {
            JsonValue::Array(items) => Some(items),
            _ => None,
        }
    }

    /// The integer of a number value that denotes one within `i64`.
    pub open spec fn integer(self) -> Option<i64> {
        match self {
            JsonValue::Number(n) => n,
            _ => None,
        }
    }
}

impl Json {
    /// Looks up the member `key` of an object.
    pub fn get(&self, key: &str) -> (found: Option<&Json>)
        ensures
            match found {
                Some(json) => self@.member(key@) == Some(json@),
                None => self@.member(key@) is None,
            },
    {
        match self {
            Json::Object(members) => {
                let wanted = String::from_str(key);
                let mut i: usize = 0;
                while i < members.len()
                    invariant
                        i <= members.len(),
                        wanted@ == key@,
                        *self == Json::Object(*members),
                        self@.member(key@) == self@.member_from(key@, i as int),
                    decreases members.len() - i,
                {
                    if members[i].0 == wanted {
                        return Some(&members[i].1);
                    }
                    i += 1;
                }
                None
            },
            _ => None,
        }
    }

    /// The string that the document is, if it is one.
    pub fn as_str(&self) -> (text: Option<&str>)
        ensures
            match text {
                Some(s) => self@.text() == Some(s@),
                None => self@.text() is None,
            },
    {
        match self {
            Json::Text(s) => Some(s.as_str()),
            _ => None,
        }
    }

    /// The elements of the array that the document is, if it is one.
    pub fn as_array(&self) -> (items: Option<&Vec<Json>>)
        ensures
            match items {
                Some(v) => self@.items() == Some(Seq::new(v@.len(), |i: int| v@[i]@)),
                None => self@.items() is None,
            },
    {
        match self {
            Json::Array(items) => {
                Some(items)
            },
            _ => None,
        }
    }

    /// The integer that the document is, if it is a number that denotes one
    /// within `i64`.
    pub fn as_i64(&self) -> (n: Option<i64>)
        ensures
            n == self@.integer(),
    {
        match self {
            Json::Number(n) => *n,
            _ => None,
        }
    }
}

/// `serde_json::Value`, which Verus carries through without looking inside.
#[verifier::external_type_specification]
#[verifier::external_body]
pub struct ExValue(serde_json::Value);

/// `serde_json::Error`, the failure that the parser reports.
#[verifier::external_type_specification]
#[verifier::external_body]
pub struct ExError(serde_json::Error);

/// The document that `serde_json::from_str` reads from `text`, or `None`
/// where it rejects the text.
pub uninterp spec fn parsed_document(text: Seq<char>) -> Option<JsonValue>;

/// The document that a `serde_json::Value` holds.
pub uninterp spec fn value_content(value: serde_json::Value) -> JsonValue;

/// Calls `serde_json::from_str` for a `serde_json::Value`. The contract names
/// the outcome: the value read holds the document `parsed_document(text)`,
/// and an error comes exactly where that is `None`.
#[verifier::external_body]
fn read_value(text: &str) -> (outcome: Result<serde_json::Value, serde_json::Error>)
    ensures
        match outcome {
            Ok(value) => parsed_document(text@) == Some(value_content(value)),
            Err(_) => parsed_document(text@) is None,
        },
{
    serde_json::from_str::<serde_json::Value>(text)
}

/// One level of a `serde_json::Value`: which kind of value it is, with its
/// parts as `serde_json` holds them.
enum Shape<'a> {
    Null,
    Bool(bool),
    Number(Option<i64>),
    Text(&'a str),
    Array(&'a Vec<serde_json::Value>),
    Object(Vec<(&'a String, &'a serde_json::Value)>),
}

/// The document that one level of a value stands for, given what its parts
/// hold.
spec fn shape_content(shape: Shape) -> JsonValue {
    match shape {
        Shape::Null => JsonValue::Null,
        Shape::Bool(b) => JsonValue::Bool(b),
        Shape::Number(n) => JsonValue::Number(n),
        Shape::Text(s) => JsonValue::Text(s@),
        Shape::Array(items) => JsonValue::Array(
            Seq::new(items@.len(), |i: int| value_content(items@[i])),
        ),
        Shape::Object(members) => JsonValue::Object(
            Seq::new(members@.len(), |i: int| (members@[i].0@, value_content(*members@[i].1))),
        ),
    }
}

/// Tells the variants of a `serde_json::Value` apart and hands out the
/// parts: a number through `serde_json::Number::as_i64`, the members of an
/// object as `serde_json::Map::iter` walks them. The contract says that the
/// value holds the document of that kind made of what its parts hold.
#[verifier::external_body]
fn shape_of<'a>(value: &'a serde_json::Value) -> (shape: Shape<'a>)
    ensures
        shape_content(shape) == value_content(*value),
{
    match value {
        serde_json::Value::Null => Shape::Null,
        serde_json::Value::Bool(b) => Shape::Bool(*b),
        serde_json::Value::Number(n) => Shape::Number(n.as_i64()),
        serde_json::Value::String(s) => Shape::Text(s),
        serde_json::Value::Array(a) => Shape::Array(a),
        serde_json::Value::Object(m) => Shape::Object(m.iter().collect()),
    }
}

/// The document that `value` holds, as a [`Json`].
fn document_of(value: &serde_json::Value) -> (json: Json)
    ensures
        json@ == value_content(*value),
    decreases value_content(*value),
{
    match shape_of(value) {
        Shape::Null => Json::Null,
        Shape::Bool(b) => Json::Bool(b),
        Shape::Number(n) => Json::Number(n),
        Shape::Text(s) => Json::Text(String::from_str(s)),
        Shape::Array(items) => {
            let ghost contents = Seq::new(items@.len(), |i: int| value_content(items@[i]));
            let mut documents: Vec<Json> = Vec::new();
            let mut i: usize = 0;
            while i < items.len()
                invariant
                    i <= items.len(),
                    documents.len() == i,
                    value_content(*value) == JsonValue::Array(contents),
                    contents == Seq::new(items@.len(), |i: int| value_content(items@[i])),
                    forall|k: int| 0 <= k < i ==> (#[trigger] documents@[k])@ == contents[k],
                decreases items.len() - i,
            {
                assert(decreases_to!(value_content(*value) => value_content(
                    *value,
                )->Array_0[i as int]));
                documents.push(document_of(&items[i]));
                i += 1;
            }
            let json = Json::Array(documents);
            assert(json@->Array_0 =~= contents);
            json
        },
        Shape::Object(members) => {
            let ghost contents = Seq::new(
                members@.len(),
                |i: int| (members@[i].0@, value_content(*members@[i].1)),
            );
            let mut documents: Vec<(String, Json)> = Vec::new();
            let mut i: usize = 0;
            while i < members.len()
                invariant
                    i <= members.len(),
                    documents.len() == i,
                    value_content(*value) == JsonValue::Object(contents),
                    contents == Seq::new(
                        members@.len(),
                        |i: int| (members@[i].0@, value_content(*members@[i].1)),
                    ),
                    forall|k: int|
                        0 <= k < i ==> ((#[trigger] documents@[k]).0@, documents@[k].1@)
                            == contents[k],
                decreases members.len() - i,
            {
                assert(decreases_to!(value_content(*value) => value_content(
                    *value,
                )->Object_0[i as int].1));
                let key = members[i].0.clone();
                let member = document_of(members[i].1);
                documents.push((key, member));
                i += 1;
            }
            let json = Json::Object(documents);
            assert(json@->Object_0 =~= contents);
            json
        },
    }
}

/// Why a text is no JSON document.
#[derive(Debug, PartialEq, Eq, Clone, Copy, Structural)]
pub enum JsonError {
    /// The parser rejected the text.
    Rejected,
}

impl Json {
    /// Reads a JSON document from `text`.
    pub fn parse(text: &str) -> (outcome: Result<Json, JsonError>)
        ensures
            match outcome {
                Ok(json) => parsed_document(text@) == Some(json@),
                Err(e) => parsed_document(text@) is None && e == JsonError::Rejected,
            },
    {
        match read_value(text) {
            Ok(value) => Ok(document_of(&value)),
            Err(_) => Err(JsonError::Rejected),
        }
    }
}

} // verus!
