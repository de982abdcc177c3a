//! Reading the fields of a record out of a JSON payload.
//!
//! A field is a text or a whole number that fits `u32`, and is required or
//! optional. An optional field may be left out or be `null`. A member that
//! no field names is passed over.

use vstd::prelude::*;
use crate::json::{JsonDoc, JsonValue};
use crate::text::join;

verus! {

/// Why a payload was turned down.
#[derive(Debug, Clone, PartialEq, Eq)]
pub enum PayloadError {
    /// The text is not JSON; the parser's own words.
    Malformed(String),
    /// The document is not an object.
    NotAnObject,
    /// A required field is not there.
    MissingField(String),
    /// A field holds a value of the wrong type, or a number out of range.
    InvalidField(String),
}

/// A `PayloadError` as a mathematical value.
pub enum PayloadErrorView {
    Malformed(Seq<char>),
    NotAnObject,
    MissingField(Seq<char>),
    InvalidField(Seq<char>),
}

impl View for PayloadError {
    type V = PayloadErrorView;

    open spec fn view(&self) -> PayloadErrorView {
        match self {
            PayloadError::Malformed(words) => PayloadErrorView::Malformed(words@),
            PayloadError::NotAnObject => PayloadErrorView::NotAnObject,
            PayloadError::MissingField(name) => PayloadErrorView::MissingField(name@),
            PayloadError::InvalidField(name) => PayloadErrorView::InvalidField(name@),
        }
    }
}

impl PayloadErrorView {
    /// The error in words, as a response body shows it.
    pub open spec fn message(self) -> Seq<char> {
        match self {
            PayloadErrorView::Malformed(words) => words,
            PayloadErrorView::NotAnObject => "invalid type: expected a JSON object"@,
            PayloadErrorView::MissingField(name) => "missing field `"@ + name + "`"@,
            PayloadErrorView::InvalidField(name) => "invalid value for field `"@ + name + "`"@,
        }
    }
}

impl PayloadError {
    /// The error in words, as a response body shows it.
    pub fn message(&self) -> (words: String)
        ensures
            words@ == self@.message(),
    {
        match self {
            PayloadError::Malformed(words) => words.clone(),
            PayloadError::NotAnObject => String::from_str("invalid type: expected a JSON object"),
            PayloadError::MissingField(name) => {
                let mut words = join("missing field `", name.as_str());
                words.append("`");
                words
            },
            PayloadError::InvalidField(name) => {
                let mut words = join("invalid value for field `", name.as_str());
                words.append("`");
                words
            },
        }
    }
}

/// The required text field `name` of `doc`.
pub open spec fn required_text(doc: JsonDoc, name: Seq<char>) -> Result<
    Seq<char>,
    PayloadErrorView,
> {
    match doc.member(name) {
        None => Err(PayloadErrorView::MissingField(name)),
        Some(JsonDoc::Text(t)) => Ok(t),
        Some(_) => Err(PayloadErrorView::InvalidField(name)),
    }
}

/// The optional text field `name` of `doc`.
pub open spec fn optional_text(doc: JsonDoc, name: Seq<char>) -> Result<
    Option<Seq<char>>,
    PayloadErrorView,
> {
    match doc.member(name) {
        None => Ok(None),
        Some(JsonDoc::Null) => Ok(None),
        Some(JsonDoc::Text(t)) => Ok(Some(t)),
        Some(_) => Err(PayloadErrorView::InvalidField(name)),
    }
}

/// The required number field `name` of `doc`.
pub open spec fn required_number(doc: JsonDoc, name: Seq<char>) -> Result<u32, PayloadErrorView> {
    match doc.member(name) {
        None => Err(PayloadErrorView::MissingField(name)),
        Some(JsonDoc::Unsigned(n)) if n <= u32::MAX => Ok(n as u32),
        Some(_) => Err(PayloadErrorView::InvalidField(name)),
    }
}

/// The optional number field `name` of `doc`.
pub open spec fn optional_number(doc: JsonDoc, name: Seq<char>) -> Result<
    Option<u32>,
    PayloadErrorView,
> {
    match doc.member(name) {
        None => Ok(None),
        Some(JsonDoc::Null) => Ok(None),
        Some(JsonDoc::Unsigned(n)) if n <= u32::MAX => Ok(Some(n as u32)),
        Some(_) => Err(PayloadErrorView::InvalidField(name)),
    }
}

/// Reads the required text field `name`.
pub fn read_required_text(doc: &JsonValue, name: &str) -> (read: Result<String, PayloadError>)
    ensures
        match read {
            Ok(t) => required_text(doc@, name@) == Ok::<Seq<char>, PayloadErrorView>(t@),
            Err(error) => required_text(doc@, name@) == Err::<Seq<char>, PayloadErrorView>(error@),
        },
{
    match doc.member(name) {
        None => Err(PayloadError::MissingField(String::from_str(name))),
        Some(JsonValue::Text(t)) => Ok(t.clone()),
        Some(_) => Err(PayloadError::InvalidField(String::from_str(name))),
    }
}

/// Reads the optional text field `name`.
pub fn read_optional_text(doc: &JsonValue, name: &str) -> (read: Result<
    Option<String>,
    PayloadError,
>)
    ensures
        match read {
            Ok(Some(t)) => optional_text(doc@, name@) == Ok::<Option<Seq<char>>, PayloadErrorView>(
                Some(t@),
            ),
            Ok(None) => optional_text(doc@, name@) == Ok::<Option<Seq<char>>, PayloadErrorView>(
                None,
            ),
            Err(error) => optional_text(doc@, name@) == Err::<
                Option<Seq<char>>,
                PayloadErrorView,
            >(error@),
        },
{
    match doc.member(name) {
        None => Ok(None),
        Some(JsonValue::Null) => Ok(None),
        Some(JsonValue::Text(t)) => Ok(Some(t.clone())),
        Some(_) => Err(PayloadError::InvalidField(String::from_str(name))),
    }
}

/// Reads the required number field `name`.
pub fn read_required_number(doc: &JsonValue, name: &str) -> (read: Result<u32, PayloadError>)
    ensures
        match read {
            Ok(n) => required_number(doc@, name@) == Ok::<u32, PayloadErrorView>(n),
            Err(error) => required_number(doc@, name@) == Err::<u32, PayloadErrorView>(error@),
        },
{
    match doc.member(name) {
        None => Err(PayloadError::MissingField(String::from_str(name))),
        Some(JsonValue::Unsigned(n)) => {
            if *n <= 0xffff_ffff {
                Ok(*n as u32)
            } else {
                Err(PayloadError::InvalidField(String::from_str(name)))
            }
        },
        Some(_) => Err(PayloadError::InvalidField(String::from_str(name))),
    }
}

/// Reads the optional number field `name`.
pub fn read_optional_number(doc: &JsonValue, name: &str) -> (read: Result<
    Option<u32>,
    PayloadError,
>)
    ensures
        match read {
            Ok(n) => optional_number(doc@, name@) == Ok::<Option<u32>, PayloadErrorView>(n),
            Err(error) => optional_number(doc@, name@) == Err::<Option<u32>, PayloadErrorView>(
                error@,
            ),
        },
{
    match doc.member(name) {
        None => Ok(None),
        Some(JsonValue::Null) => Ok(None),
        Some(JsonValue::Unsigned(n)) => {
            if *n <= 0xffff_ffff {
                Ok(Some(*n as u32))
            } else {
                Err(PayloadError::InvalidField(String::from_str(name)))
            }
        },
        Some(_) => Err(PayloadError::InvalidField(String::from_str(name))),
    }
}

} // verus!
