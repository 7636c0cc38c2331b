//! Reading a document from JSON text, which `serde_json` parses.

use crate::document::{Doc, Document, Table};
use crate::error::{Cause, Error, Fault};
use vstd::prelude::*;

verus! {

/// `serde_json::Value`, of which nothing is known here.
#[verifier::external_type_specification]
#[verifier::external_body]
pub struct ExJsonValue(serde_json::Value);

/// What `serde_json::from_str` makes of `text`, read as a `serde_json::Value`:
/// the document, or the message of the error that it reports. In the document
/// a number stands as the text that `serde_json` prints for it.
pub uninterp spec fn json_document(text: Seq<char>) -> Result<Doc, Seq<char>>;

/// Turns a `serde_json::Value` into a `Document`, variant by variant. Nothing
/// is claimed of the result here: `parse_json`, its one caller, names it.
#[verifier::external_body]
fn from_json(tree: serde_json::Value) -> Document {
    match tree {
        serde_json::Value::Null => Document::Null,
        serde_json::Value::Bool(flag) => Document::Bool(flag),
        serde_json::Value::Number(number) => Document::Number(number.to_string()),
        serde_json::Value::String(text) => Document::Text(text),
        serde_json::Value::Array(items) => Document::List(items.into_iter().map(from_json).collect()),
        serde_json::Value::Object(fields) => Document::Table(
            fields.into_iter().fold(Table::new(), |table, (key, value)| table.with(key, from_json(value))),
        ),
    }
}

/// Calls `serde_json::from_str` for a `serde_json::Value`, and hands back the
/// document, or the error as the text that it displays. The contract claims
/// that the outcome depends on the text alone: it is what `json_document`
/// names.
#[verifier::external_body]
fn parse_json(text: &str) -> (parsed: Result<Document, String>)
    ensures
        match parsed {
            Ok(document) => json_document(text@) == Ok::<Doc, Seq<char>>(document@),
            Err(detail) => json_document(text@) == Err::<Doc, Seq<char>>(detail@),
        },
{
    match serde_json::from_str::<serde_json::Value>(text) {
        Ok(tree) => Ok(from_json(tree)),
        Err(error) => Err(error.to_string()),
    }
}

/// Reads a document from JSON text. The one fault is text that is not well
/// formed.
pub fn read_json(text: &str) -> (read: Result<Document, Error>)
    ensures
        match read {
            Ok(document) => json_document(text@) == Ok::<Doc, Seq<char>>(document@),
            Err(error) => json_document(text@) matches Err(detail) && error@
                == (Fault::Malformed { detail }),
        },
{
    match parse_json(text) {
        Ok(document) => Ok(document),
        Err(detail) => Err(Error::new(Cause::Malformed { detail })),
    }
}

} // verus!
