//! Reading the fields of a table as the settings schema wants them.

use crate::document::{Doc, Document, Table};
use crate::error::{Cause, Error, Fault, Field};
use vstd::prelude::*;

verus! {

/// What `table` holds under `key`; a missing key is a fault of `field`.
pub open spec fn entry_at(table: Map<Seq<char>, Doc>, key: Seq<char>, field: Field) -> Result<
    Doc,
    Fault,
> {
    if table.contains_key(key) {
        Ok(table[key])
    } else {
        Err(Fault::Missing { field })
    }
}

/// The text that `table` holds under `key`; a missing key and a value that
/// is no text are faults of `field`.
pub open spec fn text_at(table: Map<Seq<char>, Doc>, key: Seq<char>, field: Field) -> Result<
    Seq<char>,
    Fault,
> {
    match entry_at(table, key, field) {
        Ok(Doc::Text(text)) => Ok(text),
        Ok(_) => Err(Fault::WrongShape { field }),
        Err(fault) => Err(fault),
    }
}

/// The table that `table` holds under `key`; a missing key and a value that
/// is no table are faults of `field`.
pub open spec fn table_at(table: Map<Seq<char>, Doc>, key: Seq<char>, field: Field) -> Result<
    Map<Seq<char>, Doc>,
    Fault,
> {
    match entry_at(table, key, field) {
        Ok(Doc::Table(inner)) => Ok(inner),
        Ok(_) => Err(Fault::WrongShape { field }),
        Err(fault) => Err(fault),
    }
}

/// The value under `key`.
pub fn entry_in<'a>(table: &'a Table, key: &str, field: Field) -> (found: Result<&'a Document, Error>)
    ensures
        match found {
            Ok(document) => entry_at(table@, key@, field) == Ok::<Doc, Fault>(document@),
            Err(error) => entry_at(table@, key@, field) == Err::<Doc, Fault>(error@),
        },
{
    match table.get(key) {
        Some(document) => Ok(document),
        None => Err(Error::new(Cause::Missing { field })),
    }
}

/// The text under `key`.
pub fn text_in<'a>(table: &'a Table, key: &str, field: Field) -> (found: Result<&'a String, Error>)
    ensures
        match found {
            Ok(text) => text_at(table@, key@, field) == Ok::<Seq<char>, Fault>(text@),
            Err(error) => text_at(table@, key@, field) == Err::<Seq<char>, Fault>(error@),
        },
{
    match entry_in(table, key, field)?.as_text() {
        Some(text) => Ok(text),
        None => Err(Error::new(Cause::WrongShape { field })),
    }
}

/// The table under `key`.
pub fn table_in<'a>(table: &'a Table, key: &str, field: Field) -> (found: Result<&'a Table, Error>)
    ensures
        match found {
            Ok(inner) => table_at(table@, key@, field) == Ok::<Map<Seq<char>, Doc>, Fault>(inner@),
            Err(error) => table_at(table@, key@, field) == Err::<Map<Seq<char>, Doc>, Fault>(
                error@,
            ),
        },
{
    match entry_in(table, key, field)?.as_table() {
        Some(inner) => Ok(inner),
        None => Err(Error::new(Cause::WrongShape { field })),
    }
}

} // verus!
