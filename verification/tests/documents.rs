use edgelet_settings::defaults::Platform;
use edgelet_settings::document::{Document, Table};
use edgelet_settings::error::{Cause, ErrorKind};
use edgelet_settings::json::read_json;
use edgelet_settings::merge::merge;

fn json(text: &str) -> Document {
    read_json(text).expect("well-formed text")
}

fn text(content: &str) -> Document {
    Document::Text(content.to_string())
}

fn at<'a>(document: &'a Document, path: &[&str]) -> Option<&'a Document> {
    let path: Vec<String> = path.iter().map(|key| key.to_string()).collect();
    document.at(&path)
}

#[test]
fn path_leads_through_tables_alone() {
    let document = json(r#"{"a": {"b": {"c": 1}, "l": [{"x": 1}]}, "t": "text"}"#);
    assert!(at(&document, &[]).unwrap().same(&document));
    assert!(at(&document, &["a", "b"]).unwrap().same(&json(r#"{"c": 1}"#)));
    assert!(at(&document, &["a", "b", "c"]).unwrap().same(&json("1")));
    assert!(at(&document, &["a", "b", "c", "d"]).is_none());
    assert!(at(&document, &["a", "x"]).is_none());
    assert!(at(&document, &["a", "l", "x"]).is_none());
    assert!(at(&document, &["t", "a"]).is_none());
    assert!(at(&json("7"), &["a"]).is_none());
    assert!(at(&json("7"), &[]).unwrap().same(&json("7")));
}

#[test]
fn merge_keeps_the_base_where_the_overlay_is_silent() {
    let base = json(r#"{"a": {"b": {"c": 1, "d": 2}}, "e": [1]}"#);
    let over = json(r#"{"a": {"b": {"c": 9}, "f": {}}}"#);
    let merged = merge(&base, &over);
    assert!(at(&merged, &["a", "b", "c"]).unwrap().same(&json("9")));
    assert!(at(&merged, &["a", "b", "d"]).unwrap().same(&json("2")));
    assert!(at(&merged, &["e"]).unwrap().same(&json("[1]")));
    assert!(at(&merged, &["a", "f"]).unwrap().same(&json("{}")));
    assert!(at(&merged, &["a", "g"]).is_none());
}

#[test]
fn json_text_is_read_variant_by_variant() {
    assert!(matches!(json("null"), Document::Null));
    assert!(matches!(json("true"), Document::Bool(true)));
    assert!(matches!(json("false"), Document::Bool(false)));
    assert!(json(r#""edge""#).same(&text("edge")));
    assert!(json(r#""a\"b\n""#).same(&text("a\"b\n")));
    let list = json(r#"[null, "x", [true]]"#);
    let items = list.as_list().unwrap();
    assert_eq!(items.len(), 3);
    assert!(matches!(items[0], Document::Null));
    assert_eq!(items[1].as_text().map(String::as_str), Some("x"));
    assert!(matches!(items[2].as_list().unwrap()[0], Document::Bool(true)));
}

#[test]
fn json_numbers_are_kept_as_their_literal() {
    match json("42") {
        Document::Number(literal) => assert_eq!(literal, "42"),
        other => panic!("unexpected {:?}", other),
    }
    match json("-7") {
        Document::Number(literal) => assert_eq!(literal, "-7"),
        other => panic!("unexpected {:?}", other),
    }
    match json("1.5") {
        Document::Number(literal) => assert_eq!(literal, "1.5"),
        other => panic!("unexpected {:?}", other),
    }
    match json("18446744073709551615") {
        Document::Number(literal) => assert_eq!(literal, "18446744073709551615"),
        other => panic!("unexpected {:?}", other),
    }
    assert!(!json("1").same(&json(r#""1""#)));
    assert!(json("1").same(&json(" 1 ")));
}

#[test]
fn json_table_holds_each_key_once() {
    let document = json(r#"{"a": 1, "b": {"c": "d"}, "a": 2}"#);
    let table = document.as_table().unwrap();
    let mut keys = table.keys();
    keys.sort();
    assert_eq!(keys, vec!["a".to_string(), "b".to_string()]);
    assert!(table.get("a").unwrap().same(&json("2")));
    assert_eq!(at(&document, &["b", "c"]).unwrap().as_text().map(String::as_str), Some("d"));
    assert!(table.get("c").is_none());
    assert!(document.as_text().is_none());
    assert!(document.as_list().is_none());
}

#[test]
fn text_that_is_no_json_is_refused() {
    assert!(read_json("").is_err());
    assert!(read_json("{").is_err());
    assert!(read_json(r#"{"a": }"#).is_err());
    assert!(read_json(r#"{"a": 1} trailing"#).is_err());
    assert!(read_json("{'a': 1}").is_err());
    let error = read_json("nul").unwrap_err();
    assert_eq!(error.kind(), ErrorKind::Configuration);
    assert!(matches!(error.cause(), Cause::Malformed { .. }));
    assert_eq!(
        error.message(),
        "the override document is not well formed: EOF while parsing a value at line 1 column 3"
    );
}

#[test]
fn default_text_denotes_the_default_document() {
    for platform in [Platform::Unix, Platform::Windows] {
        let read = json(platform.default_text());
        assert!(read.same(&platform.default_document()));
        assert!(platform.default_document().same(&read));
    }
    assert!(!Platform::Unix.default_document().same(&Platform::Windows.default_document()));
}

#[test]
fn default_documents_differ_in_the_engine_address_alone() {
    let unix = Platform::Unix.default_document();
    let windows = Platform::Windows.default_document();
    assert_eq!(
        at(&unix, &["docker_uri"]).unwrap().as_text().map(String::as_str),
        Some("unix:///var/run/docker.sock")
    );
    assert_eq!(
        at(&windows, &["docker_uri"]).unwrap().as_text().map(String::as_str),
        Some("http://localhost:2375")
    );
    let patched = merge(&unix, &json(r#"{"docker_uri": "http://localhost:2375"}"#));
    assert!(patched.same(&windows));
}

#[test]
fn table_keeps_the_last_value_put_under_a_key() {
    let table = Table::new()
        .with("a".to_string(), text("1"))
        .with("b".to_string(), text("2"))
        .with("a".to_string(), text("3"));
    assert_eq!(table.keys().len(), 2);
    assert_eq!(table.get("a").unwrap().as_text().map(String::as_str), Some("3"));
    assert_eq!(table.get("b").unwrap().as_text().map(String::as_str), Some("2"));
    assert!(table.get("").is_none());
    assert_eq!(Table::new().keys().len(), 0);
}

#[test]
fn same_takes_tables_without_order_and_lists_with_it() {
    assert!(json(r#"{"a": 1, "b": [1, 2]}"#).same(&json(r#"{"b": [1, 2], "a": 1}"#)));
    assert!(!json(r#"{"a": 1, "b": [1, 2]}"#).same(&json(r#"{"a": 1, "b": [2, 1]}"#)));
    assert!(!json(r#"{"a": 1}"#).same(&json(r#"{"a": 1, "b": null}"#)));
    assert!(!json(r#"{"a": 1, "b": null}"#).same(&json(r#"{"a": 1}"#)));
    assert!(!json(r#"{"a": 1}"#).same(&json(r#"{"a": 2}"#)));
    assert!(!json("[1]").same(&json("[1, 1]")));
    assert!(!json("null").same(&json("false")));
    assert!(json("{}").same(&Document::Table(Table::new())));
    assert!(Document::List(vec![text("x")]).same(&json(r#"["x"]"#)));
}

#[test]
fn clone_denotes_the_same_document() {
    let document = json(r#"{"a": [1, {"b": "c"}], "d": {"e": null, "f": true}}"#);
    assert!(document.clone().same(&document));
    let table = document.as_table().unwrap();
    assert!(table.clone().same(table));
}

#[test]
fn merge_overrides_leaves_and_keeps_siblings_at_every_depth() {
    let base = json(r#"{"a": {"b": {"c": 1, "d": 2}, "e": 3}, "f": 4}"#);
    let over = json(r#"{"a": {"b": {"c": 10}}}"#);
    let merged = merge(&base, &over);
    assert!(merged.same(&json(r#"{"a": {"b": {"c": 10, "d": 2}, "e": 3}, "f": 4}"#)));
}

#[test]
fn merge_adds_what_the_base_lacks() {
    let merged = merge(&json(r#"{"a": 1}"#), &json(r#"{"b": {"c": 2}}"#));
    assert!(merged.same(&json(r#"{"a": 1, "b": {"c": 2}}"#)));
    let merged = merge(&json("{}"), &json(r#"{"b": {"c": 2}}"#));
    assert!(merged.same(&json(r#"{"b": {"c": 2}}"#)));
}

#[test]
fn merge_with_an_empty_table_changes_nothing() {
    let base = json(r#"{"a": {"b": 1}, "c": [1]}"#);
    assert!(merge(&base, &json("{}")).same(&base));
    assert!(merge(&base, &json(r#"{"a": {}}"#)).same(&base));
}

#[test]
fn merge_replaces_lists_whole() {
    let merged = merge(&json(r#"{"a": [1, 2, 3]}"#), &json(r#"{"a": [9]}"#));
    assert!(merged.same(&json(r#"{"a": [9]}"#)));
    let merged = merge(&json(r#"{"a": [{"b": 1}]}"#), &json(r#"{"a": [{"c": 2}]}"#));
    assert!(merged.same(&json(r#"{"a": [{"c": 2}]}"#)));
}

#[test]
fn merge_lets_the_overlay_change_the_shape() {
    let merged = merge(&json(r#"{"a": {"b": 1}}"#), &json(r#"{"a": "flat"}"#));
    assert!(merged.same(&json(r#"{"a": "flat"}"#)));
    let merged = merge(&json(r#"{"a": "flat"}"#), &json(r#"{"a": {"b": 1}}"#));
    assert!(merged.same(&json(r#"{"a": {"b": 1}}"#)));
    let merged = merge(&json(r#"{"a": 1}"#), &json(r#"{"a": null}"#));
    assert!(merged.same(&json(r#"{"a": null}"#)));
    assert!(merge(&json(r#"{"a": 1}"#), &json("7")).same(&json("7")));
    assert!(merge(&json("7"), &json(r#"{"a": 1}"#)).same(&json(r#"{"a": 1}"#)));
}

#[test]
fn merge_of_a_document_with_itself_is_that_document() {
    for text in [
        "null",
        "[1, 2]",
        r#"{"a": {"b": {"c": 1, "d": [2]}, "e": {}}, "f": "g"}"#,
        Platform::Unix.default_text(),
        Platform::Windows.default_text(),
    ] {
        let document = json(text);
        assert!(merge(&document, &document).same(&document));
    }
}

#[test]
fn merge_keeps_keys_as_they_are_written() {
    let merged = merge(&json(r#"{"a.b": 1, "A": 2}"#), &json(r#"{"a": {"b": 3}}"#));
    assert!(merged.same(&json(r#"{"a.b": 1, "A": 2, "a": {"b": 3}}"#)));
}

#[test]
fn merge_leaves_its_arguments_as_they_were() {
    let base = json(r#"{"a": {"b": 1}}"#);
    let over = json(r#"{"a": {"c": 2}}"#);
    let merged = merge(&base, &over);
    assert!(base.same(&json(r#"{"a": {"b": 1}}"#)));
    assert!(over.same(&json(r#"{"a": {"c": 2}}"#)));
    assert!(merged.same(&json(r#"{"a": {"b": 1, "c": 2}}"#)));
}
