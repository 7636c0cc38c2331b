//! What holds of loading as a whole.

use crate::defaults::{
    default_config, default_docker_uri, default_model, default_provisioning, default_runtime,
    Platform,
};
use crate::document::Doc;
use crate::error::{Fault, Field};
use crate::json::json_document;
use crate::merge::{deep_merge, law_merge_with_itself};
use crate::provisioning::{law_provisioning_round_trip, provisioning_of, ProvisioningMethod};
use crate::runtime::{all_texts, law_runtime_round_trip, runtime_of, texts_of, ModuleModel};
use crate::schema::{entry_at, text_at};
use crate::settings::{
    config_site, settings_document, settings_in, settings_of, staged, uri_at, OverrideModel,
    SettingsModel,
};
use crate::uri::{parsed_url, url_text};
use url::Url;
use vstd::prelude::*;

verus! {

/// The six keys of a settings document are six different texts.
proof fn lemma_settings_keys_differ()
    ensures
        "provisioning"@ != "runtime"@,
        "provisioning"@ != "hostname"@,
        "provisioning"@ != "workload_uri"@,
        "provisioning"@ != "management_uri"@,
        "provisioning"@ != "docker_uri"@,
        "runtime"@ != "hostname"@,
        "runtime"@ != "workload_uri"@,
        "runtime"@ != "management_uri"@,
        "runtime"@ != "docker_uri"@,
        "hostname"@ != "workload_uri"@,
        "hostname"@ != "management_uri"@,
        "hostname"@ != "docker_uri"@,
        "workload_uri"@ != "management_uri"@,
        "workload_uri"@ != "docker_uri"@,
        "management_uri"@ != "docker_uri"@,
{
    reveal_strlit("provisioning");
    reveal_strlit("runtime");
    reveal_strlit("hostname");
    reveal_strlit("workload_uri");
    reveal_strlit("management_uri");
    reveal_strlit("docker_uri");
    assert("provisioning"@.len() == 12 && "provisioning"@[0] == 'p');
    assert("runtime"@.len() == 7);
    assert("hostname"@.len() == 8);
    assert("workload_uri"@.len() == 12 && "workload_uri"@[0] == 'w');
    assert("management_uri"@.len() == 14);
    assert("docker_uri"@.len() == 10);
}

/// The keys of a provisioning table are different texts, and so are the two
/// sources.
proof fn lemma_provisioning_keys_differ()
    ensures
        "source"@ != "device_connection_string"@,
        "source"@ != "global_endpoint"@,
        "source"@ != "scope_id"@,
        "device_connection_string"@ != "global_endpoint"@,
        "device_connection_string"@ != "scope_id"@,
        "global_endpoint"@ != "scope_id"@,
        "manual"@ != "dps"@,
{
    reveal_strlit("source");
    reveal_strlit("device_connection_string");
    reveal_strlit("global_endpoint");
    reveal_strlit("scope_id");
    reveal_strlit("manual");
    reveal_strlit("dps");
    assert("source"@.len() == 6);
    assert("device_connection_string"@.len() == 24);
    assert("global_endpoint"@.len() == 15);
    assert("scope_id"@.len() == 8);
    assert("manual"@.len() == 6);
    assert("dps"@.len() == 3);
}

/// The keys of a runtime table are different texts.
proof fn lemma_runtime_keys_differ()
    ensures
        "name"@ != "type"@,
        "name"@ != "env"@,
        "name"@ != "config"@,
        "type"@ != "env"@,
        "type"@ != "config"@,
        "env"@ != "config"@,
{
    reveal_strlit("name");
    reveal_strlit("type");
    reveal_strlit("env");
    reveal_strlit("config");
    assert("name"@.len() == 4 && "name"@[0] == 'n');
    assert("type"@.len() == 4 && "type"@[0] == 't');
    assert("env"@.len() == 3);
    assert("config"@.len() == 6);
}

/// The settings that the defaults of `platform` hold, where their three
/// addresses parse to the given URIs.
pub open spec fn default_settings<T>(
    platform: Platform,
    config: T,
    workload_uri: Url,
    management_uri: Url,
    docker_uri: Url,
) -> SettingsModel<T> {
    SettingsModel {
        provisioning: ProvisioningMethod::Manual {
            device_connection_string: "HostName=something.some.com;DeviceId=some;SharedAccessKey=some"@,
        },
        runtime: ModuleModel {
            name: "edgeAgent"@,
            type_: "docker"@,
            config,
            env: Map::empty(),
        },
        hostname: "localhost"@,
        workload_uri,
        management_uri,
        docker_uri,
    }
}

/// The provisioning table of the defaults describes the manual method with
/// the placeholder connection string.
proof fn lemma_default_provisioning()
    ensures
        provisioning_of(default_provisioning()) == Ok::<ProvisioningMethod, Fault>(
            ProvisioningMethod::Manual {
                device_connection_string: "HostName=something.some.com;DeviceId=some;SharedAccessKey=some"@,
            },
        ),
{
    lemma_provisioning_keys_differ();
}

/// The runtime table of the defaults describes the agent, run by docker,
/// with no environment.
proof fn lemma_default_runtime<T>(config: Result<T, Seq<char>>)
    ensures
        runtime_of(default_runtime(), config) == match config {
            Ok(config) => Ok::<ModuleModel<T>, Fault>(
                ModuleModel { name: "edgeAgent"@, type_: "docker"@, config, env: Map::empty() },
            ),
            Err(detail) => Err::<ModuleModel<T>, Fault>(Fault::InvalidConfig { detail }),
        },
{
    lemma_runtime_keys_differ();
    let none = Map::<Seq<char>, Doc>::empty();
    assert(all_texts(none));
    assert(texts_of(none) =~= Map::<Seq<char>, Seq<char>>::empty());
}

/// Without an override file the defaults of the platform are what is
/// decoded: nothing can fail before decoding.
pub proof fn law_defaults_alone(platform: Platform)
    ensures
        staged(platform, None) == Ok::<Doc, Fault>(default_model(platform)),
        config_site(default_model(platform)) == Some(default_config()),
{
    lemma_settings_keys_differ();
    lemma_runtime_keys_differ();
}

/// The defaults of either platform decode to their literal values: manual
/// provisioning with the placeholder connection string, the agent run by
/// docker with no environment, the host `localhost`, and the three addresses
/// as parsed. Decoding fails only where the engine's configuration was
/// refused or an address of the defaults does not parse.
pub proof fn law_defaults_decode<T>(platform: Platform, config: Result<T, Seq<char>>)
    ensures
        settings_of(default_model(platform), config) == match config {
            Err(detail) => Err::<SettingsModel<T>, Fault>(Fault::InvalidConfig { detail }),
            Ok(config) => match parsed_url("http://0.0.0.0:8081"@) {
                None => Err(Fault::InvalidUri { field: Field::WorkloadUri }),
                Some(workload_uri) => match parsed_url("http://0.0.0.0:8080"@) {
                    None => Err(Fault::InvalidUri { field: Field::ManagementUri }),
                    Some(management_uri) => match parsed_url(default_docker_uri(platform)) {
                        None => Err(Fault::InvalidUri { field: Field::DockerUri }),
                        Some(docker_uri) => Ok(
                            default_settings(
                                platform,
                                config,
                                workload_uri,
                                management_uri,
                                docker_uri,
                            ),
                        ),
                    },
                },
            },
        },
{
    lemma_settings_keys_differ();
    lemma_default_provisioning();
    lemma_default_runtime(config);
}

/// An override file whose text denotes the default document changes nothing:
/// loading with it is loading without an override file.
pub proof fn law_default_as_override(platform: Platform, path: Seq<char>, text: Seq<char>)
    requires
        json_document(text) == Ok::<Doc, Seq<char>>(default_model(platform)),
    ensures
        staged(platform, Some(OverrideModel { path, content: Some(text) })) == staged(
            platform,
            None,
        ),
{
    law_merge_with_itself(default_model(platform));
}

/// The override document that sets the connection string and nothing else.
pub open spec fn connection_string_override(text: Seq<char>) -> Doc {
    Doc::Table(
        Map::empty().insert(
            "provisioning"@,
            Doc::Table(Map::empty().insert("device_connection_string"@, Doc::Text(text))),
        ),
    )
}

/// The override document that turns provisioning to `dps` and sets nothing
/// else.
pub open spec fn dps_override(endpoint: Seq<char>, scope: Seq<char>) -> Doc {
    Doc::Table(
        Map::empty().insert(
            "provisioning"@,
            Doc::Table(
                Map::empty().insert("source"@, Doc::Text("dps"@)).insert(
                    "global_endpoint"@,
                    Doc::Text(endpoint),
                ).insert("scope_id"@, Doc::Text(scope)),
            ),
        ),
    )
}

/// Laying on the defaults an override that holds a provisioning table and
/// nothing else changes the provisioning table alone.
proof fn lemma_provisioning_override(platform: Platform, provisioning: Map<Seq<char>, Doc>)
    ensures
        deep_merge(
            default_model(platform),
            Doc::Table(Map::empty().insert("provisioning"@, Doc::Table(provisioning))),
        ) == Doc::Table(
            default_model(platform)->Table_0.insert(
                "provisioning"@,
                deep_merge(default_provisioning(), Doc::Table(provisioning)),
            ),
        ),
{
    lemma_settings_keys_differ();
    let over = Map::<Seq<char>, Doc>::empty().insert("provisioning"@, Doc::Table(provisioning));
    let merged = deep_merge(default_model(platform), Doc::Table(over))->Table_0;
    let wanted = default_model(platform)->Table_0.insert(
        "provisioning"@,
        deep_merge(default_provisioning(), Doc::Table(provisioning)),
    );
    assert(merged =~= wanted);
}

/// Settings decoded from a table of which the provisioning alone was
/// replaced differ in the provisioning alone.
proof fn lemma_only_provisioning_changes<T>(
    table: Map<Seq<char>, Doc>,
    provisioning: Doc,
    method: ProvisioningMethod,
    config: Result<T, Seq<char>>,
)
    requires
        table.contains_key("provisioning"@),
        provisioning_of(table["provisioning"@]) is Ok,
        provisioning_of(provisioning) == Ok::<ProvisioningMethod, Fault>(method),
    ensures
        settings_in(table.insert("provisioning"@, provisioning), config) == match settings_in(
            table,
            config,
        ) {
            Ok(settings) => Ok::<SettingsModel<T>, Fault>(
                SettingsModel { provisioning: method, ..settings },
            ),
            Err(fault) => Err::<SettingsModel<T>, Fault>(fault),
        },
{
    lemma_settings_keys_differ();
    let changed = table.insert("provisioning"@, provisioning);
    assert(entry_at(changed, "runtime"@, Field::Runtime) == entry_at(
        table,
        "runtime"@,
        Field::Runtime,
    ));
    assert(text_at(changed, "hostname"@, Field::Hostname) == text_at(
        table,
        "hostname"@,
        Field::Hostname,
    ));
    assert(uri_at(changed, "workload_uri"@, Field::WorkloadUri) == uri_at(
        table,
        "workload_uri"@,
        Field::WorkloadUri,
    ));
    assert(uri_at(changed, "management_uri"@, Field::ManagementUri) == uri_at(
        table,
        "management_uri"@,
        Field::ManagementUri,
    ));
    assert(uri_at(changed, "docker_uri"@, Field::DockerUri) == uri_at(
        table,
        "docker_uri"@,
        Field::DockerUri,
    ));
}

/// An override that sets the connection string and nothing else gives the
/// settings of the defaults with that connection string: every other field is
/// the default's, and decoding fails exactly where decoding the defaults
/// fails.
pub proof fn law_connection_string_override<T>(
    platform: Platform,
    text: Seq<char>,
    config: Result<T, Seq<char>>,
)
    ensures
        settings_of(
            deep_merge(default_model(platform), connection_string_override(text)),
            config,
        ) == match settings_of(default_model(platform), config) {
            Ok(defaults) => Ok::<SettingsModel<T>, Fault>(
                SettingsModel {
                    provisioning: ProvisioningMethod::Manual { device_connection_string: text },
                    ..defaults
                },
            ),
            Err(fault) => Err::<SettingsModel<T>, Fault>(fault),
        },
{
    lemma_settings_keys_differ();
    lemma_provisioning_keys_differ();
    lemma_default_provisioning();
    let over = Map::<Seq<char>, Doc>::empty().insert("device_connection_string"@, Doc::Text(text));
    lemma_provisioning_override(platform, over);
    reveal_with_fuel(deep_merge, 2);
    let merged = deep_merge(default_provisioning(), Doc::Table(over));
    let wanted = Map::<Seq<char>, Doc>::empty().insert("source"@, Doc::Text("manual"@)).insert(
        "device_connection_string"@,
        Doc::Text(text),
    );
    assert(merged->Table_0 =~= wanted);
    lemma_only_provisioning_changes(
        default_model(platform)->Table_0,
        merged,
        ProvisioningMethod::Manual { device_connection_string: text },
        config,
    );
}

/// An override that turns provisioning to `dps`, with both fields of that
/// variant, gives the settings of the defaults with `Dps` of those two texts
/// for the provisioning.
pub proof fn law_dps_override<T>(
    platform: Platform,
    endpoint: Seq<char>,
    scope: Seq<char>,
    config: Result<T, Seq<char>>,
)
    ensures
        settings_of(deep_merge(default_model(platform), dps_override(endpoint, scope)), config)
            == match settings_of(default_model(platform), config) {
            Ok(defaults) => Ok::<SettingsModel<T>, Fault>(
                SettingsModel {
                    provisioning: ProvisioningMethod::Dps {
                        global_endpoint: endpoint,
                        scope_id: scope,
                    },
                    ..defaults
                },
            ),
            Err(fault) => Err::<SettingsModel<T>, Fault>(fault),
        },
{
    lemma_settings_keys_differ();
    lemma_provisioning_keys_differ();
    lemma_default_provisioning();
    let over = Map::<Seq<char>, Doc>::empty().insert("source"@, Doc::Text("dps"@)).insert(
        "global_endpoint"@,
        Doc::Text(endpoint),
    ).insert("scope_id"@, Doc::Text(scope));
    lemma_provisioning_override(platform, over);
    reveal_with_fuel(deep_merge, 2);
    let merged = deep_merge(default_provisioning(), Doc::Table(over));
    let table = merged->Table_0;
    assert(table.contains_key("source"@) && table["source"@] == Doc::Text("dps"@));
    assert(table.contains_key("global_endpoint"@) && table["global_endpoint"@] == Doc::Text(
        endpoint,
    ));
    assert(table.contains_key("scope_id"@) && table["scope_id"@] == Doc::Text(scope));
    lemma_only_provisioning_changes(
        default_model(platform)->Table_0,
        merged,
        ProvisioningMethod::Dps { global_endpoint: endpoint, scope_id: scope },
        config,
    );
}

/// The serialization of `address` parses to `address` again.
pub open spec fn reparses(address: Url) -> bool {
    parsed_url(url_text(address)) == Some(address)
}

/// Decoding the document that describes settings gives those settings back:
/// the schema loses nothing. This is stated of settings whose three URIs
/// parse from their own serialization to themselves, and with the engine's
/// configuration decoded to what it was.
pub proof fn law_settings_round_trip<T>(settings: SettingsModel<T>, config: Doc)
    requires
        reparses(settings.workload_uri),
        reparses(settings.management_uri),
        reparses(settings.docker_uri),
    ensures
        settings_of(
            settings_document(settings, config),
            Ok::<T, Seq<char>>(settings.runtime.config),
        ) == Ok::<SettingsModel<T>, Fault>(settings),
{
    lemma_settings_keys_differ();
    law_provisioning_round_trip(settings.provisioning);
    law_runtime_round_trip(settings.runtime, config);
}

} // verus!
