//! The built-in default document, one for each family of platforms.
//!
//! The two differ in one field: where the local container engine listens.

use crate::document::{Doc, Document, Table};
use vstd::prelude::*;

verus! {

/// A family of platforms.
#[derive(Clone, Copy, Debug, PartialEq, Eq, Structural)]
pub enum Platform {
    Unix,
    Windows,
}

/// The default document for Unix, as text.
pub const UNIX_DEFAULTS: &'static str =
    r#"{
    "provisioning": {
      "source": "manual",
      "device_connection_string": "HostName=something.some.com;DeviceId=some;SharedAccessKey=some"
    },
    "runtime": {
      "name": "edgeAgent",
      "type": "docker",
      "env": {},
      "config": {
        "image": "microsoft/azureiotedge-agent:1.0-preview",
        "create_options": "",
        "auth": {}
      }
    },
    "hostname": "localhost",
    "workload_uri": "http://0.0.0.0:8081",
    "management_uri": "http://0.0.0.0:8080",
    "docker_uri": "unix:///var/run/docker.sock"
}"#;

/// The default document for Windows, as text.
pub const WINDOWS_DEFAULTS: &'static str =
    r#"{
    "provisioning": {
      "source": "manual",
      "device_connection_string": "HostName=something.some.com;DeviceId=some;SharedAccessKey=some"
    },
    "runtime": {
      "name": "edgeAgent",
      "type": "docker",
      "env": {},
      "config": {
        "image": "microsoft/azureiotedge-agent:1.0-preview",
        "create_options": "",
        "auth": {}
      }
    },
    "hostname": "localhost",
    "workload_uri": "http://0.0.0.0:8081",
    "management_uri": "http://0.0.0.0:8080",
    "docker_uri": "http://localhost:2375"
}"#;

/// The address of the local container engine in the defaults of `platform`.
pub open spec fn default_docker_uri(platform: Platform) -> Seq<char> {
    match platform {
        Platform::Unix => "unix:///var/run/docker.sock"@,
        Platform::Windows => "http://localhost:2375"@,
    }
}

/// The provisioning table of the defaults.
pub open spec fn default_provisioning() -> Doc {
    Doc::Table(
        Map::empty().insert("source"@, Doc::Text("manual"@)).insert(
            "device_connection_string"@,
            Doc::Text("HostName=something.some.com;DeviceId=some;SharedAccessKey=some"@),
        ),
    )
}

/// The engine-specific configuration of the default runtime.
pub open spec fn default_config() -> Doc {
    Doc::Table(
        Map::empty().insert("image"@, Doc::Text("microsoft/azureiotedge-agent:1.0-preview"@)).insert(
            "create_options"@,
            Doc::Text(""@),
        ).insert("auth"@, Doc::Table(Map::empty())),
    )
}

/// The runtime table of the defaults.
pub open spec fn default_runtime() -> Doc {
    Doc::Table(
        Map::empty().insert("name"@, Doc::Text("edgeAgent"@)).insert(
            "type"@,
            Doc::Text("docker"@),
        ).insert("env"@, Doc::Table(Map::empty())).insert("config"@, default_config()),
    )
}

/// The default document of `platform`.
pub open spec fn default_model(platform: Platform) -> Doc {
    Doc::Table(
        Map::empty().insert("provisioning"@, default_provisioning()).insert(
            "runtime"@,
            default_runtime(),
        ).insert("hostname"@, Doc::Text("localhost"@)).insert(
            "workload_uri"@,
            Doc::Text("http://0.0.0.0:8081"@),
        ).insert("management_uri"@, Doc::Text("http://0.0.0.0:8080"@)).insert(
            "docker_uri"@,
            Doc::Text(default_docker_uri(platform)),
        ),
    )
}

fn text(content: &str) -> (document: Document)
    ensures
        document@ == Doc::Text(content@),
{
    Document::Text(content.to_owned())
}

impl Platform {
    /// The default document of the platform as text, in the format of an
    /// override file.
    pub fn default_text(self) -> (text: &'static str)
        ensures
            text@ == match self {
                Platform::Unix => UNIX_DEFAULTS@,
                Platform::Windows => WINDOWS_DEFAULTS@,
            },
    {
        match self {
            Platform::Unix => UNIX_DEFAULTS,
            Platform::Windows => WINDOWS_DEFAULTS,
        }
    }

    /// The default document of the platform.
    pub fn default_document(self) -> (document: Document)
        ensures
            document@ == default_model(self),
    {
        let provisioning = Table::new().with("source".to_owned(), text("manual")).with(
            "device_connection_string".to_owned(),
            text("HostName=something.some.com;DeviceId=some;SharedAccessKey=some"),
        );
        let config = Table::new().with(
            "image".to_owned(),
            text("microsoft/azureiotedge-agent:1.0-preview"),
        ).with("create_options".to_owned(), text("")).with(
            "auth".to_owned(),
            Document::Table(Table::new()),
        );
        let runtime = Table::new().with("name".to_owned(), text("edgeAgent")).with(
            "type".to_owned(),
            text("docker"),
        ).with("env".to_owned(), Document::Table(Table::new())).with(
            "config".to_owned(),
            Document::Table(config),
        );
        let docker_uri = match self {
            Platform::Unix => text("unix:///var/run/docker.sock"),
            Platform::Windows => text("http://localhost:2375"),
        };
        let root = Table::new().with("provisioning".to_owned(), Document::Table(provisioning)).with(
            "runtime".to_owned(),
            Document::Table(runtime),
        ).with("hostname".to_owned(), text("localhost")).with(
            "workload_uri".to_owned(),
            text("http://0.0.0.0:8081"),
        ).with("management_uri".to_owned(), text("http://0.0.0.0:8080")).with(
            "docker_uri".to_owned(),
            docker_uri,
        );
        Document::Table(root)
    }
}

} // verus!
