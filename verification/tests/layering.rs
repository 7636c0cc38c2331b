use config::{Config, File, FileFormat};
use edgelet_settings::defaults::Platform;
use edgelet_settings::document::Document;
use edgelet_settings::json::read_json;
use edgelet_settings::merge::merge;

fn json(text: &str) -> Document {
    read_json(text).expect("well-formed text")
}

/// What the `config` crate makes of the two texts as layered sources.
fn layered_by_config(base: &str, over: &str) -> Document {
    let layers = Config::builder()
        .add_source(File::from_str(base, FileFormat::Json))
        .add_source(File::from_str(over, FileFormat::Json))
        .build()
        .expect("two tables");
    let tree = layers.try_deserialize::<serde_json::Value>().expect("a tree");
    json(&tree.to_string())
}

fn assert_agreement(base: &str, over: &str) {
    let merged = merge(&json(base), &json(over));
    let layered = layered_by_config(base, over);
    assert!(merged.same(&layered), "{:?} is not {:?}", merged, layered);
}

#[test]
fn merge_agrees_with_layered_sources_on_tables() {
    assert_agreement(r#"{"a": 1, "b": "x"}"#, r#"{"b": "y", "c": true}"#);
    assert_agreement(r#"{"a": {"b": {"c": 1, "d": 2}, "e": 3}}"#, r#"{"a": {"b": {"c": 10}}}"#);
    assert_agreement(r#"{"a": {"b": 1}}"#, "{}");
    assert_agreement("{}", r#"{"a": {"b": 1}}"#);
    assert_agreement(r#"{"a": {"b": 1}}"#, r#"{"a": {}}"#);
}

#[test]
fn merge_agrees_with_layered_sources_on_changes_of_shape() {
    assert_agreement(r#"{"a": {"b": 1}}"#, r#"{"a": "flat"}"#);
    assert_agreement(r#"{"a": "flat"}"#, r#"{"a": {"b": 1}}"#);
    assert_agreement(r#"{"a": 5}"#, r#"{"a": {}}"#);
    assert_agreement(r#"{"a": 1}"#, r#"{"a": null}"#);
    assert_agreement(r#"{"a": [1, 2, 3]}"#, r#"{"a": ["x"]}"#);
    assert_agreement(r#"{"a": [{"b": 1}]}"#, r#"{"a": [{"c": 2}]}"#);
}

#[test]
fn merge_agrees_with_layered_sources_on_the_defaults() {
    for platform in [Platform::Unix, Platform::Windows] {
        let defaults = platform.default_text();
        assert_agreement(defaults, defaults);
        assert_agreement(defaults, r#"{"provisioning": {"device_connection_string": "mine"}}"#);
        assert_agreement(
            defaults,
            r#"{"provisioning": {"source": "dps", "global_endpoint": "g", "scope_id": "s"}}"#,
        );
        assert_agreement(
            defaults,
            r#"{"runtime": {"env": {"A": "b"}, "config": {"auth": {"username": "u"}}}, "hostname": "h"}"#,
        );
    }
}
