//! How the device comes by its identity.

use crate::document::{Doc, Document, Table};
use crate::error::{Cause, Error, Fault, Field};
use crate::schema::{text_at, text_in};
use vstd::prelude::*;

verus! {

/// The provisioning method as a mathematical value.
pub enum ProvisioningMethod {
    Manual { device_connection_string: Seq<char> },
    Dps { global_endpoint: Seq<char>, scope_id: Seq<char> },
}

/// The provisioning method. In a document the field `source` tells the
/// variants apart: `manual` or `dps`, in lower case.
#[derive(Debug)]
pub enum Provisioning {
    Manual { device_connection_string: String },
    Dps { global_endpoint: String, scope_id: String },
}

impl View for Provisioning {
    type V = ProvisioningMethod;

    open spec fn view(&self) -> ProvisioningMethod {
        match self {
            Provisioning::Manual { device_connection_string } => ProvisioningMethod::Manual {
                device_connection_string: device_connection_string@,
            },
            Provisioning::Dps { global_endpoint, scope_id } => ProvisioningMethod::Dps {
                global_endpoint: global_endpoint@,
                scope_id: scope_id@,
            },
        }
    }
}

/// The method that a provisioning table describes: `source` picks the
/// variant, the fields of that variant are wanted as texts, and what else the
/// table holds is passed over.
pub open spec fn method_of(table: Map<Seq<char>, Doc>) -> Result<ProvisioningMethod, Fault> {
    match text_at(table, "source"@, Field::Source) {
        Err(fault) => Err(fault),
        Ok(source) => if source == "manual"@ {
            match text_at(table, "device_connection_string"@, Field::DeviceConnectionString) {
                Err(fault) => Err(fault),
                Ok(device_connection_string) => Ok(
                    ProvisioningMethod::Manual { device_connection_string },
                ),
            }
        } else if source == "dps"@ {
            match text_at(table, "global_endpoint"@, Field::GlobalEndpoint) {
                Err(fault) => Err(fault),
                Ok(global_endpoint) => match text_at(table, "scope_id"@, Field::ScopeId) {
                    Err(fault) => Err(fault),
                    Ok(scope_id) => Ok(ProvisioningMethod::Dps { global_endpoint, scope_id }),
                },
            }
        } else {
            Err(Fault::UnknownSource { found: source })
        },
    }
}

/// The method that a document describes.
pub open spec fn provisioning_of(document: Doc) -> Result<ProvisioningMethod, Fault> {
    match document {
        Doc::Table(table) => method_of(table),
        _ => Err(Fault::WrongShape { field: Field::Provisioning }),
    }
}

/// The table that describes a method.
pub open spec fn provisioning_table(method: ProvisioningMethod) -> Map<Seq<char>, Doc> {
    match method {
        ProvisioningMethod::Manual { device_connection_string } => Map::empty().insert(
            "source"@,
            Doc::Text("manual"@),
        ).insert("device_connection_string"@, Doc::Text(device_connection_string)),
        ProvisioningMethod::Dps { global_endpoint, scope_id } => Map::empty().insert(
            "source"@,
            Doc::Text("dps"@),
        ).insert("global_endpoint"@, Doc::Text(global_endpoint)).insert(
            "scope_id"@,
            Doc::Text(scope_id),
        ),
    }
}

impl Provisioning {
    /// Decodes the provisioning method from its document.
    pub fn from_document(document: &Document) -> (decoded: Result<Provisioning, Error>)
        ensures
            match decoded {
                Ok(provisioning) => provisioning_of(document@) == Ok::<ProvisioningMethod, Fault>(
                    provisioning@,
                ),
                Err(error) => provisioning_of(document@) == Err::<ProvisioningMethod, Fault>(
                    error@,
                ),
            },
    {
        let table = match document.as_table() {
            Some(table) => table,
            None => {
                return Err(Error::new(Cause::WrongShape { field: Field::Provisioning }));
            },
        };
        let source = text_in(table, "source", Field::Source)?;
        if *source == "manual".to_owned() {
            let device_connection_string = text_in(
                table,
                "device_connection_string",
                Field::DeviceConnectionString,
            )?;
            Ok(Provisioning::Manual { device_connection_string: device_connection_string.clone() })
        } else if *source == "dps".to_owned() {
            let global_endpoint = text_in(table, "global_endpoint", Field::GlobalEndpoint)?;
            let scope_id = text_in(table, "scope_id", Field::ScopeId)?;
            Ok(
                Provisioning::Dps {
                    global_endpoint: global_endpoint.clone(),
                    scope_id: scope_id.clone(),
                },
            )
        } else {
            Err(Error::new(Cause::UnknownSource { found: source.clone() }))
        }
    }

    /// The document that describes the method.
    pub fn to_document(&self) -> (document: Document)
        ensures
            document@ == Doc::Table(provisioning_table(self@)),
    {
        let table = Table::new();
        match self {
            Provisioning::Manual { device_connection_string } => Document::Table(
                table.with("source".to_owned(), Document::Text("manual".to_owned())).with(
                    "device_connection_string".to_owned(),
                    Document::Text(device_connection_string.clone()),
                ),
            ),
            Provisioning::Dps { global_endpoint, scope_id } => Document::Table(
                table.with("source".to_owned(), Document::Text("dps".to_owned())).with(
                    "global_endpoint".to_owned(),
                    Document::Text(global_endpoint.clone()),
                ).with("scope_id".to_owned(), Document::Text(scope_id.clone())),
            ),
        }
    }
}

/// A table whose `source` is `dps` and which holds both fields of that
/// variant as texts describes `Dps` with those texts, whatever else it holds.
pub proof fn law_dps_is_decoded(table: Map<Seq<char>, Doc>, endpoint: Seq<char>, scope: Seq<char>)
    requires
        table.contains_key("source"@) && table["source"@] == Doc::Text("dps"@),
        table.contains_key("global_endpoint"@) && table["global_endpoint"@] == Doc::Text(endpoint),
        table.contains_key("scope_id"@) && table["scope_id"@] == Doc::Text(scope),
    ensures
        method_of(table) == Ok::<ProvisioningMethod, Fault>(
            ProvisioningMethod::Dps { global_endpoint: endpoint, scope_id: scope },
        ),
{
    reveal_strlit("dps");
    reveal_strlit("manual");
    assert("dps"@.len() != "manual"@.len());
}

/// A table whose `source` is a text other than `manual` and `dps` describes
/// no method: decoding fails, and names the text that it found.
pub proof fn law_unknown_source_fails(table: Map<Seq<char>, Doc>, source: Seq<char>)
    requires
        table.contains_key("source"@) && table["source"@] == Doc::Text(source),
        source != "manual"@,
        source != "dps"@,
    ensures
        method_of(table) == Err::<ProvisioningMethod, Fault>(Fault::UnknownSource { found: source }),
{
}

/// Decoding the document that describes a method gives that method back.
pub proof fn law_provisioning_round_trip(method: ProvisioningMethod)
    ensures
        provisioning_of(Doc::Table(provisioning_table(method))) == Ok::<ProvisioningMethod, Fault>(
            method,
        ),
{
    reveal_strlit("dps");
    reveal_strlit("manual");
    reveal_strlit("source");
    reveal_strlit("device_connection_string");
    reveal_strlit("global_endpoint");
    reveal_strlit("scope_id");
    assert("dps"@.len() != "manual"@.len());
    assert("source"@.len() != "device_connection_string"@.len());
    assert("source"@.len() != "global_endpoint"@.len());
    assert("source"@.len() != "scope_id"@.len());
    assert("global_endpoint"@.len() != "scope_id"@.len());
}

} // verus!
