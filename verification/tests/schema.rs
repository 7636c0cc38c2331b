use edgelet_settings::defaults::Platform;
use edgelet_settings::document::{Document, Table};
use edgelet_settings::error::{Cause, Error, ErrorKind, Field};
use edgelet_settings::json::read_json;
use edgelet_settings::provisioning::Provisioning;
use edgelet_settings::runtime::{Env, ModuleSpec};
use edgelet_settings::schema::{entry_in, table_in, text_in};
use edgelet_settings::settings::{address_from, config_document, layered, OverrideFile, Settings};
use url::Url;

fn json(text: &str) -> Document {
    read_json(text).expect("well-formed text")
}

fn table(text: &str) -> Table {
    json(text).as_table().expect("a table").clone()
}

fn image(site: &Document) -> Result<String, String> {
    let table = site.as_table().ok_or("no table")?;
    Ok(table.get("image").ok_or("no image")?.as_text().ok_or("no text")?.clone())
}

#[test]
fn fields_have_their_dotted_paths() {
    assert_eq!(Field::Document.path(), "document");
    assert_eq!(Field::Provisioning.path(), "provisioning");
    assert_eq!(Field::Source.path(), "provisioning.source");
    assert_eq!(Field::DeviceConnectionString.path(), "provisioning.device_connection_string");
    assert_eq!(Field::GlobalEndpoint.path(), "provisioning.global_endpoint");
    assert_eq!(Field::ScopeId.path(), "provisioning.scope_id");
    assert_eq!(Field::Runtime.path(), "runtime");
    assert_eq!(Field::Name.path(), "runtime.name");
    assert_eq!(Field::Type.path(), "runtime.type");
    assert_eq!(Field::Env.path(), "runtime.env");
    assert_eq!(Field::Config.path(), "runtime.config");
    assert_eq!(Field::Hostname.path(), "hostname");
    assert_eq!(Field::WorkloadUri.path(), "workload_uri");
    assert_eq!(Field::ManagementUri.path(), "management_uri");
    assert_eq!(Field::DockerUri.path(), "docker_uri");
}

#[test]
fn every_cause_has_its_message_and_one_kind() {
    let cases = vec![
        (Cause::Unreadable { path: "a/b.json".to_string() }, "cannot read the override file a/b.json"),
        (
            Cause::Malformed { detail: "EOF at line 1".to_string() },
            "the override document is not well formed: EOF at line 1",
        ),
        (Cause::Missing { field: Field::Hostname }, "missing field hostname"),
        (Cause::WrongShape { field: Field::Env }, "wrong shape of field runtime.env"),
        (Cause::UnknownSource { found: "x509".to_string() }, "unknown provisioning source x509"),
        (Cause::InvalidUri { field: Field::DockerUri }, "no absolute URI in field docker_uri"),
        (
            Cause::InvalidConfig { detail: "missing field `image`".to_string() },
            "the runtime configuration was not accepted: missing field `image`",
        ),
    ];
    for (cause, message) in cases {
        let error = Error::new(cause);
        assert_eq!(error.kind(), ErrorKind::Configuration);
        assert_eq!(error.message(), message);
    }
}

#[test]
fn readers_tell_missing_from_misshapen() {
    let table = table(r#"{"t": "text", "n": 1, "o": {"k": "v"}}"#);
    assert_eq!(text_in(&table, "t", Field::Hostname).unwrap(), "text");
    assert!(matches!(
        text_in(&table, "n", Field::Hostname).unwrap_err().cause(),
        Cause::WrongShape { field: Field::Hostname }
    ));
    assert!(matches!(
        text_in(&table, "x", Field::Hostname).unwrap_err().cause(),
        Cause::Missing { field: Field::Hostname }
    ));
    assert_eq!(table_in(&table, "o", Field::Env).unwrap().keys(), vec!["k".to_string()]);
    assert!(matches!(
        table_in(&table, "t", Field::Env).unwrap_err().cause(),
        Cause::WrongShape { field: Field::Env }
    ));
    assert!(matches!(
        table_in(&table, "x", Field::Env).unwrap_err().cause(),
        Cause::Missing { field: Field::Env }
    ));
    assert!(entry_in(&table, "n", Field::Config).unwrap().same(&json("1")));
    assert!(matches!(
        entry_in(&table, "x", Field::Config).unwrap_err().cause(),
        Cause::Missing { field: Field::Config }
    ));
}

#[test]
fn provisioning_decodes_manual() {
    let decoded = Provisioning::from_document(&json(
        r#"{"source": "manual", "device_connection_string": "HostName=h;DeviceId=d"}"#,
    ))
    .unwrap();
    match decoded {
        Provisioning::Manual { device_connection_string } => {
            assert_eq!(device_connection_string, "HostName=h;DeviceId=d")
        }
        other => panic!("unexpected {:?}", other),
    }
}

#[test]
fn provisioning_decodes_dps_and_passes_over_other_fields() {
    let decoded = Provisioning::from_document(&json(
        r#"{"device_connection_string": "left over", "scope_id": "s", "source": "dps", "global_endpoint": "g"}"#,
    ))
    .unwrap();
    match decoded {
        Provisioning::Dps { global_endpoint, scope_id } => {
            assert_eq!(global_endpoint, "g");
            assert_eq!(scope_id, "s");
        }
        other => panic!("unexpected {:?}", other),
    }
}

#[test]
fn provisioning_faults() {
    let message = |text: &str| Provisioning::from_document(&json(text)).unwrap_err().message();
    assert_eq!(message("[]"), "wrong shape of field provisioning");
    assert_eq!(message("{}"), "missing field provisioning.source");
    assert_eq!(message(r#"{"source": 1}"#), "wrong shape of field provisioning.source");
    assert_eq!(message(r#"{"source": ""}"#), "unknown provisioning source ");
    assert_eq!(message(r#"{"source": "DPS"}"#), "unknown provisioning source DPS");
    assert_eq!(
        message(r#"{"source": "manual"}"#),
        "missing field provisioning.device_connection_string"
    );
    assert_eq!(
        message(r#"{"source": "manual", "device_connection_string": []}"#),
        "wrong shape of field provisioning.device_connection_string"
    );
    assert_eq!(
        message(r#"{"source": "dps", "global_endpoint": 1, "scope_id": "s"}"#),
        "wrong shape of field provisioning.global_endpoint"
    );
    assert_eq!(
        message(r#"{"source": "dps", "global_endpoint": "g", "scope_id": {}}"#),
        "wrong shape of field provisioning.scope_id"
    );
}

#[test]
fn provisioning_survives_its_document() {
    let manual = Provisioning::Manual { device_connection_string: "c".to_string() };
    assert!(manual
        .to_document()
        .same(&json(r#"{"source": "manual", "device_connection_string": "c"}"#)));
    match Provisioning::from_document(&manual.to_document()).unwrap() {
        Provisioning::Manual { device_connection_string } => {
            assert_eq!(device_connection_string, "c")
        }
        other => panic!("unexpected {:?}", other),
    }
    let dps = Provisioning::Dps { global_endpoint: "g".to_string(), scope_id: "s".to_string() };
    assert!(dps
        .to_document()
        .same(&json(r#"{"source": "dps", "global_endpoint": "g", "scope_id": "s"}"#)));
    match Provisioning::from_document(&dps.to_document()).unwrap() {
        Provisioning::Dps { global_endpoint, scope_id } => {
            assert_eq!(global_endpoint, "g");
            assert_eq!(scope_id, "s");
        }
        other => panic!("unexpected {:?}", other),
    }
}

#[test]
fn env_holds_one_value_for_a_name() {
    let env = Env::new()
        .with("A".to_string(), "1".to_string())
        .with("B".to_string(), "2".to_string())
        .with("A".to_string(), "3".to_string());
    assert_eq!(env.get("A").map(String::as_str), Some("3"));
    assert_eq!(env.get("B").map(String::as_str), Some("2"));
    assert_eq!(env.get("C"), None);
    assert_eq!(env.names().len(), 2);
    assert!(Document::Table(env.to_table()).same(&json(r#"{"A": "3", "B": "2"}"#)));
    assert_eq!(Env::new().names().len(), 0);
}

#[test]
fn env_is_read_from_a_table_of_texts_alone() {
    let env = Env::from_table(&table(r#"{"A": "1", "B": ""}"#)).unwrap();
    assert_eq!(env.get("A").map(String::as_str), Some("1"));
    assert_eq!(env.get("B").map(String::as_str), Some(""));
    assert!(Env::from_table(&table("{}")).is_some());
    assert!(Env::from_table(&table(r#"{"A": "1", "B": 2}"#)).is_none());
    assert!(Env::from_table(&table(r#"{"A": {"B": "2"}}"#)).is_none());
}

#[test]
fn runtime_decodes_field_by_field() {
    let document = json(
        r#"{"name": "agent", "type": "docker", "env": {"K": "V"}, "config": {"image": "i"}, "extra": 1}"#,
    );
    let module = ModuleSpec::from_document(&document, Ok(5u32)).unwrap();
    assert_eq!(module.name(), "agent");
    assert_eq!(module.type_(), "docker");
    assert_eq!(*module.config(), 5);
    assert_eq!(module.env().get("K").map(String::as_str), Some("V"));
    assert!(module.to_document(json(r#"{"image": "i"}"#)).same(&json(
        r#"{"name": "agent", "type": "docker", "env": {"K": "V"}, "config": {"image": "i"}}"#
    )));
}

#[test]
fn runtime_faults_come_in_the_order_of_the_schema() {
    let message = |text: &str, config: Result<u32, String>| {
        ModuleSpec::from_document(&json(text), config).unwrap_err().message()
    };
    let refused = || Err("refused".to_string());
    assert_eq!(message("1", Ok(1)), "wrong shape of field runtime");
    assert_eq!(message("{}", refused()), "missing field runtime.name");
    assert_eq!(message(r#"{"name": "n"}"#, refused()), "missing field runtime.type");
    assert_eq!(
        message(r#"{"name": "n", "type": 1}"#, refused()),
        "wrong shape of field runtime.type"
    );
    assert_eq!(message(r#"{"name": "n", "type": "t"}"#, refused()), "missing field runtime.env");
    assert_eq!(
        message(r#"{"name": "n", "type": "t", "env": []}"#, refused()),
        "wrong shape of field runtime.env"
    );
    assert_eq!(
        message(r#"{"name": "n", "type": "t", "env": {}}"#, Ok(1)),
        "missing field runtime.config"
    );
    assert_eq!(
        message(r#"{"name": "n", "type": "t", "env": {}, "config": {}}"#, refused()),
        "the runtime configuration was not accepted: refused"
    );
}

#[test]
fn module_parts_can_be_replaced() {
    let mut module = ModuleSpec::new("n".to_string(), "t".to_string(), 1u8, Env::new());
    module.set_config(2);
    module.set_env(Env::new().with("A".to_string(), "b".to_string()));
    assert_eq!(module.name(), "n");
    assert_eq!(module.type_(), "t");
    assert_eq!(*module.config(), 2);
    assert_eq!(module.env().get("A").map(String::as_str), Some("b"));
}

#[test]
fn address_outcome_keeps_the_uri_or_names_the_field() {
    let parsed = Url::parse("http://localhost:2375");
    assert_eq!(
        address_from(parsed, Field::DockerUri).unwrap().as_str(),
        "http://localhost:2375/"
    );
    let error = address_from(Url::parse("localhost"), Field::WorkloadUri).unwrap_err();
    assert!(matches!(error.cause(), Cause::InvalidUri { field: Field::WorkloadUri }));
}

#[test]
fn engine_configuration_is_found_under_the_runtime() {
    let document = json(r#"{"runtime": {"config": {"image": "i"}}}"#);
    assert!(config_document(&document).unwrap().same(&json(r#"{"image": "i"}"#)));
    assert!(config_document(&json(r#"{"runtime": {}}"#)).is_none());
    assert!(config_document(&json(r#"{"runtime": 1}"#)).is_none());
    assert!(config_document(&json(r#"{"config": {}}"#)).is_none());
    assert!(config_document(&json("[]")).is_none());
    let defaults = Platform::Unix.default_document();
    assert!(config_document(&defaults).unwrap().same(&json(
        r#"{"image": "microsoft/azureiotedge-agent:1.0-preview", "create_options": "", "auth": {}}"#
    )));
}

#[test]
fn layering_without_a_file_gives_the_defaults() {
    for platform in [Platform::Unix, Platform::Windows] {
        assert!(layered(platform, None).unwrap().same(&platform.default_document()));
    }
}

#[test]
fn layering_lays_the_file_on_the_defaults() {
    let file = OverrideFile {
        path: "o.json".to_string(),
        content: Some(r#"{"hostname": "edge-1", "runtime": {"env": {"A": "b"}}}"#.to_string()),
    };
    let document = layered(Platform::Windows, Some(&file)).unwrap();
    let table = document.as_table().unwrap();
    assert_eq!(table.get("hostname").unwrap().as_text().map(String::as_str), Some("edge-1"));
    assert_eq!(table.keys().len(), 6);
    let runtime = table.get("runtime").unwrap().as_table().unwrap();
    assert!(runtime.get("env").unwrap().same(&json(r#"{"A": "b"}"#)));
    assert_eq!(runtime.get("name").unwrap().as_text().map(String::as_str), Some("edgeAgent"));
}

#[test]
fn layering_faults() {
    let missing = OverrideFile { path: "gone.json".to_string(), content: None };
    let error = layered(Platform::Unix, Some(&missing)).unwrap_err();
    assert!(matches!(error.cause(), Cause::Unreadable { .. }));
    let broken = OverrideFile { path: "b.json".to_string(), content: Some("{,}".to_string()) };
    let error = layered(Platform::Unix, Some(&broken)).unwrap_err();
    assert!(matches!(error.cause(), Cause::Malformed { .. }));
}

#[test]
fn settings_decode_faults_come_in_the_order_of_the_schema() {
    let message = |text: &str| {
        Settings::<String>::from_document(&json(text), Ok("c".to_string())).unwrap_err().message()
    };
    let provisioning = r#""provisioning": {"source": "manual", "device_connection_string": "c"}"#;
    let runtime = r#""runtime": {"name": "n", "type": "t", "env": {}, "config": 1}"#;
    assert_eq!(message("3"), "wrong shape of field document");
    assert_eq!(message("{}"), "missing field provisioning");
    assert_eq!(message(&format!("{{{}}}", provisioning)), "missing field runtime");
    assert_eq!(message(&format!("{{{}, {}}}", provisioning, runtime)), "missing field hostname");
    assert_eq!(
        message(&format!(r#"{{{}, {}, "hostname": "h"}}"#, provisioning, runtime)),
        "missing field workload_uri"
    );
    assert_eq!(
        message(&format!(
            r#"{{{}, {}, "hostname": "h", "workload_uri": "http://a"}}"#,
            provisioning, runtime
        )),
        "missing field management_uri"
    );
    assert_eq!(
        message(&format!(
            r#"{{{}, {}, "hostname": "h", "workload_uri": "http://a", "management_uri": "http://b"}}"#,
            provisioning, runtime
        )),
        "missing field docker_uri"
    );
    assert_eq!(
        message(&format!(
            r#"{{{}, {}, "hostname": "h", "workload_uri": "a", "management_uri": "b", "docker_uri": "c"}}"#,
            provisioning, runtime
        )),
        "no absolute URI in field workload_uri"
    );
}

#[test]
fn settings_survive_their_document() {
    let file = OverrideFile {
        path: "o.json".to_string(),
        content: Some(
            r#"{
                "provisioning": {"source": "dps", "global_endpoint": "g", "scope_id": "s"},
                "runtime": {"env": {"A": "b"}, "config": {"image": "mine"}},
                "hostname": "edge-1",
                "docker_uri": "npipe://./pipe/docker_engine"
            }"#
            .to_string(),
        ),
    };
    let settings = Settings::new(Platform::Windows, Some(&file), image).unwrap();
    let config = json(r#"{"image": "mine"}"#);
    let document = settings.to_document(config);
    let again = Settings::from_document(&document, image(config_document(&document).unwrap()))
        .unwrap();
    match again.provisioning() {
        Provisioning::Dps { global_endpoint, scope_id } => {
            assert_eq!(global_endpoint, "g");
            assert_eq!(scope_id, "s");
        }
        other => panic!("unexpected {:?}", other),
    }
    assert_eq!(again.runtime().name(), settings.runtime().name());
    assert_eq!(again.runtime().type_(), settings.runtime().type_());
    assert_eq!(again.runtime().config(), "mine");
    assert_eq!(again.runtime().env().get("A").map(String::as_str), Some("b"));
    assert_eq!(again.runtime().env().names().len(), 1);
    assert_eq!(again.hostname(), "edge-1");
    assert_eq!(again.workload_uri(), settings.workload_uri());
    assert_eq!(again.management_uri(), settings.management_uri());
    assert_eq!(again.docker_uri(), settings.docker_uri());
    assert!(again.to_document(json(r#"{"image": "mine"}"#)).same(&document));
}

#[test]
fn decoder_is_not_asked_where_the_document_has_no_configuration() {
    let document = json(r#"{"provisioning": {"source": "manual", "device_connection_string": "c"}, "runtime": 1}"#);
    assert!(config_document(&document).is_none());
    let error = Settings::<u8>::from_document(&document, Err(String::new())).unwrap_err();
    assert_eq!(error.message(), "wrong shape of field runtime");
}

#[test]
fn decoder_is_handed_the_merged_configuration() {
    let file = OverrideFile {
        path: "o.json".to_string(),
        content: Some(r#"{"runtime": {"config": {"create_options": "{}"}}}"#.to_string()),
    };
    let settings = Settings::new(Platform::Unix, Some(&file), |site: &Document| {
        Ok(site.clone())
    })
    .unwrap();
    assert!(settings.runtime().config().same(&json(
        r#"{"image": "microsoft/azureiotedge-agent:1.0-preview", "create_options": "{}", "auth": {}}"#
    )));
}
