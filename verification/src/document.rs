//! The parsed form of a document: an array of objects, each a list of
//! entries, and the one call into `serde_json` that produces it.

use serde_json::Value;
use std::collections::BTreeMap;
use vstd::prelude::*;

verus! {

/// The value of one entry of an object, as far as decoding reads it.
///
/// Of a number only its integer value is kept, of an array or an object
/// only that it is one.
#[derive(Debug, PartialEq, Eq)]
pub enum FieldValue {
    /// `null`.
    Null,
    /// `true` or `false`.
    Bool(bool),
    /// A number: `Some(n)` where it is an integer that fits `i64`, `None`
    /// for every other number (a fraction, an exponent, `-0`, or an integer
    /// beyond `i64`).
    Number(Option<i64>),
    /// A string, with its escapes resolved.
    Text(String),
    /// An array.
    Array,
    /// An object.
    Object,
}

/// The mathematical value of a [`FieldValue`].
pub ghost enum FieldModel {
    Null,
    Bool(bool),
    Number(Option<int>),
    Text(Seq<char>),
    Array,
    Object,
}

impl View for FieldValue {
    type V = FieldModel;

    open spec fn view(&self) -> FieldModel {
        match *self {
            FieldValue::Null => FieldModel::Null,
            FieldValue::Bool(b) => FieldModel::Bool(b),
            FieldValue::Number(Some(n)) => FieldModel::Number(Some(n as int)),
            FieldValue::Number(None) => FieldModel::Number(None),
            FieldValue::Text(s) => FieldModel::Text(s@),
            FieldValue::Array => FieldModel::Array,
            FieldValue::Object => FieldModel::Object,
        }
    }
}

impl DeepView for FieldValue {
    type V = FieldModel;

    open spec fn deep_view(&self) -> FieldModel {
        self@
    }
}

/// One object of a document: its entries, each a key and a value.
pub type Row = Vec<(String, FieldValue)>;

/// The mathematical value of a [`Row`].
pub type RowModel = Seq<(Seq<char>, FieldModel)>;

/// What `serde_json` makes of a text that is read as an array of objects:
/// the objects in the order of the text, or the diagnostic of the failure.
pub uninterp spec fn json_rows(text: Seq<char>) -> Result<Seq<RowModel>, Seq<char>>;

/// The mathematical value of an outcome of parsing.
pub open spec fn parsed_model(parsed: Result<Vec<Row>, String>) -> Result<Seq<RowModel>, Seq<char>> {
    match parsed {
        Ok(rows) => Ok(rows.deep_view()),
        Err(diagnostic) => Err(diagnostic@),
    }
}

/// Calls `serde_json::from_str` at the type `Vec<BTreeMap<String, Value>>`.
///
/// The contract names the outcome [`json_rows`] of the text and claims no
/// more of it: that the call computes it from the text alone. On success
/// each object is handed out as its entries in the order of the map (by
/// key, each key once: of a key that the text writes twice the map keeps the
/// last value), every `Value` as the [`FieldValue`] of its variant, a number
/// through `Number::as_i64`. On failure the error is handed out as its
/// `Display` text.
#[verifier::external_body]
pub(crate) fn parse_rows(text: &str) -> (parsed: Result<Vec<Row>, String>)
    ensures
        parsed_model(parsed) == json_rows(text@),
{
    match serde_json::from_str::<Vec<BTreeMap<String, Value>>>(text) {
        Ok(rows) => Ok(rows.into_iter().map(|row| row.into_iter().map(|(key, value)| (key, match value {
            Value::Null => FieldValue::Null,
            Value::Bool(b) => FieldValue::Bool(b),
            Value::Number(n) => FieldValue::Number(n.as_i64()),
            Value::String(s) => FieldValue::Text(s),
            Value::Array(_) => FieldValue::Array,
            Value::Object(_) => FieldValue::Object,
        })).collect()).collect()),
        Err(e) => Err(e.to_string()),
    }
}

} // verus!
