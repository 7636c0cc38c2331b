//! Why loading the settings failed.
//!
//! Callers see one kind of error, `Configuration`; the cause says what was
//! wrong, and `message` puts it in words.

use vstd::prelude::*;
use vstd::string::StringExecFns;

verus! {

/// The kind of an error. There is one: a caller cannot recover differently
/// from one cause than from another.
#[derive(Clone, Copy, Debug, PartialEq, Eq, Structural)]
pub enum ErrorKind {
    Configuration,
}

/// A place of the settings schema.
#[derive(Clone, Copy, Debug, PartialEq, Eq, Structural)]
pub enum Field {
    Document,
    Provisioning,
    Source,
    DeviceConnectionString,
    GlobalEndpoint,
    ScopeId,
    Runtime,
    Name,
    Type,
    Env,
    Config,
    Hostname,
    WorkloadUri,
    ManagementUri,
    DockerUri,
}

/// What was wrong, as a mathematical value.
pub enum Fault {
    /// The override file at this path could not be read.
    Unreadable { path: Seq<char> },
    /// The text of the override file is not a well-formed document; `detail`
    /// is what the parser said of it.
    Malformed { detail: Seq<char> },
    /// The merged document lacks this field.
    Missing { field: Field },
    /// The merged document holds a value of another shape at this field.
    WrongShape { field: Field },
    /// The provisioning source is none of the known ones.
    UnknownSource { found: Seq<char> },
    /// The text at this field is not an absolute URI.
    InvalidUri { field: Field },
    /// The engine-specific configuration of the runtime was refused;
    /// `detail` is what its decoder said of it.
    InvalidConfig { detail: Seq<char> },
}

/// What was wrong.
#[derive(Debug)]
pub enum Cause {
    Unreadable { path: String },
    Malformed { detail: String },
    Missing { field: Field },
    WrongShape { field: Field },
    UnknownSource { found: String },
    InvalidUri { field: Field },
    InvalidConfig { detail: String },
}

/// A failure to load the settings.
#[derive(Debug)]
pub struct Error {
    cause: Cause,
}

/// The dotted path of a field, as it is written in messages.
pub open spec fn field_path(field: Field) -> Seq<char> {
    match field {
        Field::Document => "document"@,
        Field::Provisioning => "provisioning"@,
        Field::Source => "provisioning.source"@,
        Field::DeviceConnectionString => "provisioning.device_connection_string"@,
        Field::GlobalEndpoint => "provisioning.global_endpoint"@,
        Field::ScopeId => "provisioning.scope_id"@,
        Field::Runtime => "runtime"@,
        Field::Name => "runtime.name"@,
        Field::Type => "runtime.type"@,
        Field::Env => "runtime.env"@,
        Field::Config => "runtime.config"@,
        Field::Hostname => "hostname"@,
        Field::WorkloadUri => "workload_uri"@,
        Field::ManagementUri => "management_uri"@,
        Field::DockerUri => "docker_uri"@,
    }
}

/// The words for a fault.
pub open spec fn message_text(fault: Fault) -> Seq<char> {
    match fault {
        Fault::Unreadable { path } => "cannot read the override file "@ + path,
        Fault::Malformed { detail } => "the override document is not well formed: "@ + detail,
        Fault::Missing { field } => "missing field "@ + field_path(field),
        Fault::WrongShape { field } => "wrong shape of field "@ + field_path(field),
        Fault::UnknownSource { found } => "unknown provisioning source "@ + found,
        Fault::InvalidUri { field } => "no absolute URI in field "@ + field_path(field),
        Fault::InvalidConfig { detail } => "the runtime configuration was not accepted: "@ + detail,
    }
}

impl Field {
    /// The dotted path of the field.
    pub fn path(self) -> (path: &'static str)
        ensures
            path@ == field_path(self),
    {
        match self {
            Field::Document => "document",
            Field::Provisioning => "provisioning",
            Field::Source => "provisioning.source",
            Field::DeviceConnectionString => "provisioning.device_connection_string",
            Field::GlobalEndpoint => "provisioning.global_endpoint",
            Field::ScopeId => "provisioning.scope_id",
            Field::Runtime => "runtime",
            Field::Name => "runtime.name",
            Field::Type => "runtime.type",
            Field::Env => "runtime.env",
            Field::Config => "runtime.config",
            Field::Hostname => "hostname",
            Field::WorkloadUri => "workload_uri",
            Field::ManagementUri => "management_uri",
            Field::DockerUri => "docker_uri",
        }
    }
}

impl View for Cause {
    type V = Fault;

    open spec fn view(&self) -> Fault {
        match self {
            Cause::Unreadable { path } => Fault::Unreadable { path: path@ },
            Cause::Malformed { detail } => Fault::Malformed { detail: detail@ },
            Cause::Missing { field } => Fault::Missing { field: *field },
            Cause::WrongShape { field } => Fault::WrongShape { field: *field },
            Cause::UnknownSource { found } => Fault::UnknownSource { found: found@ },
            Cause::InvalidUri { field } => Fault::InvalidUri { field: *field },
            Cause::InvalidConfig { detail } => Fault::InvalidConfig { detail: detail@ },
        }
    }
}

impl View for Error {
    type V = Fault;

    closed spec fn view(&self) -> Fault {
        self.cause@
    }
}

impl Error {
    /// The error with the given cause.
    pub fn new(cause: Cause) -> (error: Error)
        ensures
            error@ == cause@,
    {
        Error { cause }
    }

    /// The kind of the error.
    pub fn kind(&self) -> (kind: ErrorKind)
        ensures
            kind == ErrorKind::Configuration,
    {
        ErrorKind::Configuration
    }

    /// What was wrong.
    pub fn cause(&self) -> (cause: &Cause)
        ensures
            cause@ == self@,
    {
        &self.cause
    }

    /// The error in words.
    pub fn message(&self) -> (message: String)
        ensures
            message@ == message_text(self@),
    {
        match &self.cause {
            Cause::Unreadable { path } => String::from_str("cannot read the override file ").concat(
                path.as_str(),
            ),
            Cause::Malformed { detail } => String::from_str(
                "the override document is not well formed: ",
            ).concat(detail.as_str()),
            Cause::Missing { field } => String::from_str("missing field ").concat(field.path()),
            Cause::WrongShape { field } => String::from_str("wrong shape of field ").concat(
                field.path(),
            ),
            Cause::UnknownSource { found } => String::from_str(
                "unknown provisioning source ",
            ).concat(found.as_str()),
            Cause::InvalidUri { field } => String::from_str("no absolute URI in field ").concat(
                field.path(),
            ),
            Cause::InvalidConfig { detail } => String::from_str(
                "the runtime configuration was not accepted: ",
            ).concat(detail.as_str()),
        }
    }
}

} // verus!
