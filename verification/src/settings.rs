//! The settings of the daemon, and how they are loaded.
//!
//! Loading lays the override document, where there is one, on the default
//! document of the platform, and decodes the result. Whatever fails, fails
//! the whole load: settings are never filled in part.

use crate::defaults::{default_model, Platform};
use crate::document::{Doc, Document, Table};
use crate::error::{Cause, Error, Fault, Field};
use crate::json::{json_document, read_json};
use crate::merge::{deep_merge, merge};
use crate::provisioning::{provisioning_of, provisioning_table, Provisioning, ProvisioningMethod};
use crate::runtime::{answer, module_table, runtime_of, ModuleModel, ModuleSpec};
use crate::schema::{entry_at, entry_in, text_at, text_in};
use crate::uri::{parsed_url, url_text};
use url::{ParseError, Url};
use vstd::prelude::*;

verus! {

/// An override file as a mathematical value.
pub struct OverrideModel {
    pub path: Seq<char>,
    pub content: Option<Seq<char>>,
}

/// An override file: its path and the text that reading it gave, or `None`
/// where it could not be read.
#[derive(Debug)]
pub struct OverrideFile {
    pub path: String,
    pub content: Option<String>,
}

impl View for OverrideFile {
    type V = OverrideModel;

    open spec fn view(&self) -> OverrideModel {
        OverrideModel {
            path: self.path@,
            content: match self.content {
                Some(text) => Some(text@),
                None => None,
            },
        }
    }
}

/// The settings as a mathematical value.
pub struct SettingsModel<T> {
    pub provisioning: ProvisioningMethod,
    pub runtime: ModuleModel<T>,
    pub hostname: Seq<char>,
    pub workload_uri: Url,
    pub management_uri: Url,
    pub docker_uri: Url,
}

/// The settings of the daemon. `T` is the configuration that the workload
/// engine wants for the runtime.
#[derive(Debug)]
pub struct Settings<T> {
    provisioning: Provisioning,
    runtime: ModuleSpec<T>,
    hostname: String,
    workload_uri: Url,
    management_uri: Url,
    docker_uri: Url,
}

impl<T> View for Settings<T> {
    type V = SettingsModel<T>;

    closed spec fn view(&self) -> SettingsModel<T> {
        SettingsModel {
            provisioning: self.provisioning@,
            runtime: self.runtime@,
            hostname: self.hostname@,
            workload_uri: self.workload_uri,
            management_uri: self.management_uri,
            docker_uri: self.docker_uri,
        }
    }
}

/// The override file that a caller handed over, as a mathematical value.
pub open spec fn file_model(file: Option<&OverrideFile>) -> Option<OverrideModel> {
    match file {
        Some(file) => Some(file@),
        None => None,
    }
}

/// The document that is decoded: the default document of the platform, with
/// the override document laid on it where there is an override file. A file
/// that could not be read, or whose text is no document, is a fault.
pub open spec fn staged(platform: Platform, file: Option<OverrideModel>) -> Result<Doc, Fault> {
    match file {
        None => Ok(default_model(platform)),
        Some(file) => match file.content {
            None => Err(Fault::Unreadable { path: file.path }),
            Some(text) => match json_document(text) {
                Err(detail) => Err(Fault::Malformed { detail }),
                Ok(over) => Ok(deep_merge(default_model(platform), over)),
            },
        },
    }
}

/// The URI that `table` holds under `key`: a text that parses as an absolute
/// URI.
pub open spec fn uri_at(table: Map<Seq<char>, Doc>, key: Seq<char>, field: Field) -> Result<
    Url,
    Fault,
> {
    match text_at(table, key, field) {
        Err(fault) => Err(fault),
        Ok(text) => match parsed_url(text) {
            Some(address) => Ok(address),
            None => Err(Fault::InvalidUri { field }),
        },
    }
}

/// The settings that a table describes, field by field in the order of the
/// schema; the first fault ends it. `config` is what became of the runtime's
/// field `config` when the engine's configuration was decoded from it.
pub open spec fn settings_in<T>(table: Map<Seq<char>, Doc>, config: Result<T, Seq<char>>) -> Result<
    SettingsModel<T>,
    Fault,
> {
    match entry_at(table, "provisioning"@, Field::Provisioning) {
        Err(fault) => Err(fault),
        Ok(document) => match provisioning_of(document) {
            Err(fault) => Err(fault),
            Ok(provisioning) => match entry_at(table, "runtime"@, Field::Runtime) {
                Err(fault) => Err(fault),
                Ok(document) => match runtime_of(document, config) {
                    Err(fault) => Err(fault),
                    Ok(runtime) => match text_at(table, "hostname"@, Field::Hostname) {
                        Err(fault) => Err(fault),
                        Ok(hostname) => match uri_at(
                            table,
                            "workload_uri"@,
                            Field::WorkloadUri,
                        ) {
                            Err(fault) => Err(fault),
                            Ok(workload_uri) => match uri_at(
                                table,
                                "management_uri"@,
                                Field::ManagementUri,
                            ) {
                                Err(fault) => Err(fault),
                                Ok(management_uri) => match uri_at(
                                    table,
                                    "docker_uri"@,
                                    Field::DockerUri,
                                ) {
                                    Err(fault) => Err(fault),
                                    Ok(docker_uri) => Ok(
                                        SettingsModel {
                                            provisioning,
                                            runtime,
                                            hostname,
                                            workload_uri,
                                            management_uri,
                                            docker_uri,
                                        },
                                    ),
                                },
                            },
                        },
                    },
                },
            },
        },
    }
}

/// The settings that a document describes.
pub open spec fn settings_of<T>(document: Doc, config: Result<T, Seq<char>>) -> Result<
    SettingsModel<T>,
    Fault,
> {
    match document {
        Doc::Table(table) => settings_in(table, config),
        _ => Err(Fault::WrongShape { field: Field::Document }),
    }
}

/// The document from which the engine's configuration is decoded: the field
/// `config` of the table `runtime`, where the document has it.
pub open spec fn config_site(document: Doc) -> Option<Doc> {
    match document {
        Doc::Table(table) => match entry_at(table, "runtime"@, Field::Runtime) {
            Ok(Doc::Table(runtime)) => if runtime.contains_key("config"@) {
                Some(runtime["config"@])
            } else {
                None
            },
            _ => None,
        },
        _ => None,
    }
}

/// The document that describes settings, with `config` for the engine's
/// configuration.
pub open spec fn settings_document<T>(settings: SettingsModel<T>, config: Doc) -> Doc {
    Doc::Table(
        Map::empty().insert(
            "provisioning"@,
            Doc::Table(provisioning_table(settings.provisioning)),
        ).insert("runtime"@, Doc::Table(module_table(settings.runtime, config))).insert(
            "hostname"@,
            Doc::Text(settings.hostname),
        ).insert("workload_uri"@, Doc::Text(url_text(settings.workload_uri))).insert(
            "management_uri"@,
            Doc::Text(url_text(settings.management_uri)),
        ).insert("docker_uri"@, Doc::Text(url_text(settings.docker_uri))),
    )
}

/// What a load came to, as a mathematical value.
pub open spec fn outcome<T>(loaded: Result<Settings<T>, Error>) -> Result<SettingsModel<T>, Fault> {
    match loaded {
        Ok(settings) => Ok(settings@),
        Err(error) => Err(error@),
    }
}

/// Lays the override document, where there is an override file, on the
/// default document of the platform.
pub fn layered(platform: Platform, file: Option<&OverrideFile>) -> (document: Result<
    Document,
    Error,
>)
    ensures
        match document {
            Ok(document) => staged(platform, file_model(file)) == Ok::<Doc, Fault>(document@),
            Err(error) => staged(platform, file_model(file)) == Err::<Doc, Fault>(error@),
        },
        file is None ==> document is Ok,
        file matches Some(given) ==> (given.content is None ==> (document matches Err(error)
            && error@ == (Fault::Unreadable { path: given.path@ }))),
        file matches Some(given) ==> (given.content matches Some(text) ==> (json_document(text@)
            matches Err(detail) ==> (document matches Err(error) && error@ == (Fault::Malformed {
            detail,
        })))),
{
    let base = platform.default_document();
    let file = match file {
        Some(file) => file,
        None => {
            return Ok(base);
        },
    };
    let text = match &file.content {
        Some(text) => text,
        None => {
            return Err(Error::new(Cause::Unreadable { path: file.path.clone() }));
        },
    };
    let over = read_json(text.as_str())?;
    Ok(merge(&base, &over))
}

/// The document from which the engine's configuration is decoded.
pub fn config_document(document: &Document) -> (site: Option<&Document>)
    ensures
        match site {
            Some(site) => config_site(document@) == Some(site@),
            None => config_site(document@) is None,
        },
{
    let table = match document.as_table() {
        Some(table) => table,
        None => {
            return None;
        },
    };
    let runtime = match table.get("runtime") {
        Some(runtime) => runtime,
        None => {
            return None;
        },
    };
    match runtime.as_table() {
        Some(runtime) => runtime.get("config"),
        None => None,
    }
}

/// What parsing the text of `field` as a URI came to: the URI, or the fault
/// that the field holds none.
pub fn address_from(parsed: Result<Url, ParseError>, field: Field) -> (address: Result<Url, Error>)
    ensures
        match parsed {
            Ok(found) => address matches Ok(kept) && kept == found,
            Err(_) => address matches Err(error) && error@ == (Fault::InvalidUri { field }),
        },
{
    match parsed {
        Ok(found) => Ok(found),
        Err(_) => Err(Error::new(Cause::InvalidUri { field })),
    }
}

fn uri_in(table: &Table, key: &str, field: Field) -> (address: Result<Url, Error>)
    ensures
        match address {
            Ok(address) => uri_at(table@, key@, field) == Ok::<Url, Fault>(address),
            Err(error) => uri_at(table@, key@, field) == Err::<Url, Fault>(error@),
        },
{
    let text = text_in(table, key, field)?;
    address_from(Url::parse(text.as_str()), field)
}

impl<T> Settings<T> {
    /// Loads the settings: lays the override file, where one is given, on the
    /// defaults of the platform, has `decode` decode the engine's
    /// configuration from the runtime's field `config`, and decodes the rest.
    ///
    /// `decode` takes any document, and answers with its reason where it
    /// refuses the one it is given. It is called at most once, and not at all where the
    /// load fails before the merged document is there or where that document
    /// has no such field.
    ///
    /// Without an override file the defaults alone are decoded. A failure
    /// then is no fault of any configuration: callers treat it as fatal.
    pub fn new<F: FnOnce(&Document) -> Result<T, String>>(
        platform: Platform,
        file: Option<&OverrideFile>,
        decode: F,
    ) -> (loaded: Result<Settings<T>, Error>)
        requires
            forall|site: &Document| call_requires(decode, (site,)),
        ensures
            match staged(platform, file_model(file)) {
                Err(fault) => outcome(loaded) == Err::<SettingsModel<T>, Fault>(fault),
                Ok(document) => match config_site(document) {
                    None => outcome(loaded) == settings_of(
                        document,
                        Err::<T, Seq<char>>(Seq::empty()),
                    ),
                    Some(site) => exists|given: Document, config: Result<T, String>|
                        given@ == site && call_ensures(decode, (&given,), config) && outcome(loaded)
                            == settings_of(document, answer(config)),
                },
            },
            file matches Some(given) ==> (given.content is None ==> outcome(loaded) == Err::<
                SettingsModel<T>,
                Fault,
            >(Fault::Unreadable { path: given.path@ })),
            file matches Some(given) ==> (given.content matches Some(text) ==> (json_document(text@)
                matches Err(detail) ==> outcome(loaded) == Err::<SettingsModel<T>, Fault>(
                Fault::Malformed { detail },
            ))),
    {
        let document = layered(platform, file)?;
        let config = match config_document(&document) {
            Some(site) => {
                let config = decode(site);
                assert(call_ensures(decode, (site,), config));
                config
            },
            None => Err(String::new()),
        };
        Settings::from_document(&document, config)
    }

    /// Decodes the settings from the merged document. `config` is what became
    /// of the runtime's field `config` when the engine's configuration was
    /// decoded from it: the configuration, or the reason of the refusal.
    pub fn from_document(document: &Document, config: Result<T, String>) -> (decoded: Result<
        Settings<T>,
        Error,
    >)
        ensures
            outcome(decoded) == settings_of(document@, answer(config)),
    {
        let table = match document.as_table() {
            Some(table) => table,
            None => {
                return Err(Error::new(Cause::WrongShape { field: Field::Document }));
            },
        };
        let provisioning = Provisioning::from_document(
            entry_in(table, "provisioning", Field::Provisioning)?,
        )?;
        let runtime = ModuleSpec::from_document(
            entry_in(table, "runtime", Field::Runtime)?,
            config,
        )?;
        let hostname = text_in(table, "hostname", Field::Hostname)?.clone();
        let workload_uri = uri_in(table, "workload_uri", Field::WorkloadUri)?;
        let management_uri = uri_in(table, "management_uri", Field::ManagementUri)?;
        let docker_uri = uri_in(table, "docker_uri", Field::DockerUri)?;
        Ok(Settings { provisioning, runtime, hostname, workload_uri, management_uri, docker_uri })
    }

    /// The document that describes the settings, with `config` for the
    /// engine's configuration.
    pub fn to_document(&self, config: Document) -> (document: Document)
        ensures
            document@ == settings_document(self@, config@),
    {
        Document::Table(
            Table::new().with("provisioning".to_owned(), self.provisioning.to_document()).with(
                "runtime".to_owned(),
                self.runtime.to_document(config),
            ).with("hostname".to_owned(), Document::Text(self.hostname.clone())).with(
                "workload_uri".to_owned(),
                Document::Text(self.workload_uri.as_str().to_owned()),
            ).with(
                "management_uri".to_owned(),
                Document::Text(self.management_uri.as_str().to_owned()),
            ).with("docker_uri".to_owned(), Document::Text(self.docker_uri.as_str().to_owned())),
        )
    }

    /// How the device comes by its identity.
    pub fn provisioning(&self) -> (provisioning: &Provisioning)
        ensures
            provisioning@ == self@.provisioning,
    {
        &self.provisioning
    }

    /// The workload that the daemon launches first.
    pub fn runtime(&self) -> (runtime: &ModuleSpec<T>)
        ensures
            runtime@ == self@.runtime,
    {
        &self.runtime
    }

    /// The runtime, to be changed in place. Nothing else of the settings
    /// changes with it.
    pub fn runtime_mut(&mut self) -> (runtime: &mut ModuleSpec<T>)
        ensures
            runtime@ == old(self)@.runtime,
            final(self)@ == (SettingsModel { runtime: final(runtime)@, ..old(self)@ }),
    {
        &mut self.runtime
    }

    /// The name of the host.
    pub fn hostname(&self) -> (hostname: &str)
        ensures
            hostname@ == self@.hostname,
    {
        self.hostname.as_str()
    }

    /// Where workloads reach the daemon.
    pub fn workload_uri(&self) -> (address: &Url)
        ensures
            *address == self@.workload_uri,
    {
        &self.workload_uri
    }

    /// Where the daemon is managed.
    pub fn management_uri(&self) -> (address: &Url)
        ensures
            *address == self@.management_uri,
    {
        &self.management_uri
    }

    /// Where the local container engine listens.
    pub fn docker_uri(&self) -> (address: &Url)
        ensures
            *address == self@.docker_uri,
    {
        &self.docker_uri
    }
}

} // verus!
