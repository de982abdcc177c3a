//! JSON documents as values of this crate, and their text form.
//!
//! Reading and writing the text is `serde_json`'s work; what a document holds
//! is decided here.

use serde_json::Value;
use vstd::prelude::*;
use crate::pairs::{find_last, lemma_lookup_absent, lemma_lookup_found, lookup};
use crate::text::optional_text_view;

verus! {

/// A JSON document, as `serde_json` holds it.
#[verifier::external_type_specification]
#[verifier::external_body]
pub struct ExValue(serde_json::Value);

/// An error of `serde_json`.
#[verifier::external_type_specification]
#[verifier::external_body]
pub struct ExJsonError(serde_json::Error);


/// A JSON document.
#[derive(Debug, PartialEq, Eq)]
pub enum JsonValue {
    Null,
    Bool(bool),
    /// A whole number that is not negative.
    Unsigned(u64),
    /// A whole number below zero.
    Negative(i64),
    /// Any other number, as its numeral.
    Decimal(String),
    Text(String),
    Array(Vec<JsonValue>),
    /// The members of an object, in the order of the text. A later member
    /// shadows an earlier one of the same name.
    Object(Vec<(String, JsonValue)>),
}

/// A `JsonValue` as a mathematical value.
pub enum JsonDoc {
    Null,
    Bool(bool),
    Unsigned(u64),
    Negative(i64),
    Decimal(Seq<char>),
    Text(Seq<char>),
    Array(Seq<JsonDoc>),
    Object(Seq<(Seq<char>, JsonDoc)>),
}

/// The document that a `JsonValue` holds.
pub open spec fn doc_of(value: JsonValue) -> JsonDoc
    decreases value,
{
    match value {
        JsonValue::Null => JsonDoc::Null,
        JsonValue::Bool(b) => JsonDoc::Bool(b),
        JsonValue::Unsigned(n) => JsonDoc::Unsigned(n),
        JsonValue::Negative(n) => JsonDoc::Negative(n),
        JsonValue::Decimal(numeral) => JsonDoc::Decimal(numeral@),
        JsonValue::Text(t) => JsonDoc::Text(t@),
        JsonValue::Array(items) => JsonDoc::Array(
            Seq::new(
                items@.len(),
                |i: int|
                    if 0 <= i < items@.len() {
                        doc_of(items@[i])
                    } else {
                        JsonDoc::Null
                    },
            ),
        ),
        JsonValue::Object(members) => JsonDoc::Object(
            Seq::new(
                members@.len(),
                |i: int|
                    if 0 <= i < members@.len() {
                        (members@[i].0@, doc_of(members@[i].1))
                    } else {
                        (Seq::empty(), JsonDoc::Null)
                    },
            ),
        ),
    }
}

impl View for JsonValue {
    type V = JsonDoc;

    open spec fn view(&self) -> JsonDoc {
        doc_of(*self)
    }
}

impl JsonDoc {
    /// The member `name` of an object; nothing for any other document.
    pub open spec fn member(self, name: Seq<char>) -> Option<JsonDoc> {
        match self {
            JsonDoc::Object(members) => lookup(members, name),
            _ => None,
        }
    }
}

/// Whether a document holds no `Decimal`, at any depth: every number in it
/// is a whole number of 64 bits.
pub open spec fn no_decimal(doc: JsonDoc) -> bool
    decreases doc,
{
    match doc {
        JsonDoc::Decimal(_) => false,
        JsonDoc::Array(items) => forall|i: int|
            0 <= i < items.len() ==> no_decimal(#[trigger] items[i]),
        JsonDoc::Object(members) => forall|i: int|
            0 <= i < members.len() ==> no_decimal((#[trigger] members[i]).1),
        _ => true,
    }
}

/// The document of an optional number: `null` where there is none.
pub open spec fn number_or_null(number: Option<u32>) -> JsonDoc {
    match number {
        Some(n) => JsonDoc::Unsigned(n as u64),
        None => JsonDoc::Null,
    }
}

/// The document of an optional text: `null` where there is none.
pub open spec fn text_or_null(text: Option<Seq<char>>) -> JsonDoc {
    match text {
        Some(t) => JsonDoc::Text(t),
        None => JsonDoc::Null,
    }
}

/// The items of an array, each as a mathematical value.
pub open spec fn items_view(items: Seq<JsonValue>) -> Seq<JsonDoc> {
    Seq::new(items.len(), |i: int| items[i]@)
}

/// The members of an object, each as a mathematical value.
pub open spec fn members_view(members: Seq<(String, JsonValue)>) -> Seq<(Seq<char>, JsonDoc)> {
    Seq::new(members.len(), |i: int| (members[i].0@, members[i].1@))
}

/// The view of an array is that of its items, in order.
pub proof fn lemma_array_view(items: Vec<JsonValue>)
    ensures
        JsonValue::Array(items)@ == JsonDoc::Array(items_view(items@)),
{
    assert(JsonValue::Array(items)@->Array_0 =~= items_view(items@));
}

/// The view of an object is that of its members, in order.
pub proof fn lemma_object_view(members: Vec<(String, JsonValue)>)
    ensures
        JsonValue::Object(members)@ == JsonDoc::Object(members_view(members@)),
{
    assert(JsonValue::Object(members)@->Object_0 =~= members_view(members@));
}

/// What `serde_json` makes of a text: the document it reads, or its
/// complaint.
pub uninterp spec fn json_parse(text: Seq<char>) -> Result<JsonDoc, Seq<char>>;

/// The compact text that `serde_json` writes for a document, or its
/// complaint.
pub uninterp spec fn json_text(doc: JsonDoc) -> Result<Seq<char>, Seq<char>>;

/// The outcome of reading a text, as a mathematical value.
pub open spec fn parsed_view(parsed: Result<JsonValue, String>) -> Result<JsonDoc, Seq<char>> {
    match parsed {
        Ok(value) => Ok(value@),
        Err(complaint) => Err(complaint@),
    }
}

/// The outcome of writing a text, as a mathematical value.
pub open spec fn written_view(written: Result<String, String>) -> Result<Seq<char>, Seq<char>> {
    match written {
        Ok(text) => Ok(text@),
        Err(complaint) => Err(complaint@),
    }
}

/// The conversion that `read_text` applies to what the parser gave: a
/// `serde_json::Value` becomes the `JsonValue` of its kind, item by item and
/// member by member. A number becomes `Unsigned` where
/// `serde_json::Number::as_u64` gives it, `Negative` where only
/// `serde_json::Number::as_i64` does, and else the `Display` text of the
/// number.
#[verifier::external_body]
fn lift(value: Value) -> JsonValue {
    match value {
        Value::Null => JsonValue::Null,
        Value::Bool(b) => JsonValue::Bool(b),
        Value::Number(n) => match (n.as_u64(), n.as_i64()) {
            (Some(u), _) => JsonValue::Unsigned(u),
            (None, Some(i)) => JsonValue::Negative(i),
            (None, None) => JsonValue::Decimal(n.to_string()),
        },
        Value::String(s) => JsonValue::Text(s),
        Value::Array(a) => JsonValue::Array(a.into_iter().map(lift).collect()),
        Value::Object(o) => JsonValue::Object(o.into_iter().map(|(k, v)| (k, lift(v))).collect()),
    }
}

/// The conversion that `write_text` applies to what it hands to the writer:
/// a `JsonValue` becomes the `serde_json::Value` of its kind, item by item
/// and member by member, each collected by the `FromIterator` of
/// `serde_json::Value`. The members of an object are inserted in order, so
/// that a later one takes the place of an earlier one of the same name. A
/// numeral is read by the `FromStr` of `serde_json::Number`, whose error is
/// the outcome where the text is no numeral.
#[verifier::external_body]
fn lower(value: &JsonValue) -> Result<Value, serde_json::Error> {
    Ok(match value {
        JsonValue::Null => Value::Null,
        JsonValue::Bool(b) => Value::Bool(*b),
        JsonValue::Unsigned(u) => Value::from(*u),
        JsonValue::Negative(i) => Value::from(*i),
        JsonValue::Decimal(d) => Value::Number(d.parse()?),
        JsonValue::Text(s) => Value::from(s.as_str()),
        JsonValue::Array(a) => a.iter().map(lower).collect::<Result<_, _>>()?,
        JsonValue::Object(o) => o.iter().map(|(k, v)| Ok((k.clone(), lower(v)?))).collect::<
            Result<_, _>,
        >()?,
    })
}

/// Calls `serde_json::from_str` for a `serde_json::Value`, and gives the
/// document that was read or the `Display` text of the error. The contract
/// claims only that the outcome depends on the text alone: it is the value
/// that `json_parse` names.
#[verifier::external_body]
fn read_text(text: &str) -> (parsed: Result<JsonValue, String>)
    ensures
        parsed_view(parsed) == json_parse(text@),
{
    serde_json::from_str::<Value>(text).map(lift).map_err(|error| error.to_string())
}

/// Calls `serde_json::to_string` on the document, and gives the text that
/// was written or the `Display` text of the error. The contract claims that
/// the outcome depends on the document alone: it is the value that
/// `json_text` names. It claims too that a document which holds no
/// `Decimal` is always written: the conversion fails on a numeral alone,
/// and the writer of a `serde_json::Value` into memory has no path that
/// fails.
#[verifier::external_body]
fn write_text(value: &JsonValue) -> (written: Result<String, String>)
    ensures
        written_view(written) == json_text(value@),
        no_decimal(value@) ==> written is Ok,
{
    lower(value).and_then(|value| serde_json::to_string(&value)).map_err(|error| error.to_string())
}

impl JsonValue {
    /// The document of an optional number.
    pub fn from_number(number: Option<u32>) -> (value: JsonValue)
        ensures
            value@ == number_or_null(number),
    {
        match number {
            Some(n) => JsonValue::Unsigned(n as u64),
            None => JsonValue::Null,
        }
    }

    /// The document of an optional text.
    pub fn from_text(text: &Option<String>) -> (value: JsonValue)
        ensures
            value@ == text_or_null(optional_text_view(*text)),
    {
        match text {
            Some(t) => JsonValue::Text(t.clone()),
            None => JsonValue::Null,
        }
    }

    /// Reads a JSON text.
    pub fn parse(text: &str) -> (parsed: Result<JsonValue, String>)
        ensures
            parsed_view(parsed) == json_parse(text@),
    {
        read_text(text)
    }

    /// Writes the document as compact JSON text. A document that holds no
    /// `Decimal` is always written.
    pub fn to_text(&self) -> (written: Result<String, String>)
        ensures
            written_view(written) == json_text(self@),
            no_decimal(self@) ==> written is Ok,
    {
        write_text(self)
    }

    /// The member `name` of an object; nothing for any other document.
    pub fn member(&self, name: &str) -> (found: Option<&JsonValue>)
        ensures
            match found {
                Some(value) => self@.member(name@) == Some(value@),
                None => self@.member(name@) is None,
            },
    {
        match self {
            JsonValue::Object(members) => {
                proof {
                    lemma_object_view(*members);
                }
                match find_last(members, name) {
                    Some(i) => {
                        proof {
                            lemma_lookup_found(members_view(members@), name@, i as int);
                        }
                        Some(&members[i].1)
                    },
                    None => {
                        proof {
                            lemma_lookup_absent(members_view(members@), name@);
                        }
                        None
                    },
                }
            },
            _ => None,
        }
    }
}

} // verus!
