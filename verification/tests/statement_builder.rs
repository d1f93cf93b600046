//! The statement shapes: their templates and what they bind.

use entity_access::identifier::{is_plain, qualify};
use entity_access::statement::{
    create, delete, fetch_all, fetch_by_id, merge_update, search, Comparison,
};
use entity_access::value::GenericValue;

fn text_value(s: &str) -> GenericValue {
    GenericValue::String(s.to_string())
}

fn bound(name: &str, value: GenericValue) -> (String, GenericValue) {
    (name.to_string(), value)
}

#[test]
fn qualify_joins_with_colon() {
    assert_eq!(qualify("item", "abc"), "item:abc");
    assert_eq!(qualify("user", ""), "user:");
    assert_eq!(qualify("", "x"), ":x");
    assert_eq!(qualify("item", "a:b"), "item:a:b");
}

#[test]
fn plain_text_has_no_opening_bracket() {
    assert!(is_plain(""));
    assert!(is_plain("item:abc"));
    assert!(is_plain("item:a]b}"));
    assert!(is_plain("item:⟨é⟩"));
    assert!(!is_plain("["));
    assert!(!is_plain("item:[1]"));
    assert!(!is_plain("item:{a:1}"));
    assert!(!is_plain("item:é{"));
}

#[test]
fn create_binds_table_and_document() {
    let document = GenericValue::Object(vec![bound("name", text_value("Alpha"))]);
    let statement = create("item", document.clone());
    assert_eq!(statement.template(), "CREATE type::table($tb) CONTENT $data RETURN *");
    assert_eq!(
        statement.bindings(),
        &vec![bound("tb", text_value("item")), bound("data", document)]
    );
}

#[test]
fn create_never_writes_the_table_into_the_template() {
    let statement = create("item; REMOVE TABLE item", GenericValue::Object(vec![]));
    assert_eq!(statement.template(), "CREATE type::table($tb) CONTENT $data RETURN *");
    assert_eq!(statement.bindings()[0], bound("tb", text_value("item; REMOVE TABLE item")));
}

#[test]
fn fetch_binds_the_identifier() {
    let statement = fetch_by_id("item:abc".to_string());
    assert_eq!(statement.template(), "SELECT * FROM $th");
    assert_eq!(
        statement.bindings(),
        &vec![bound("th", GenericValue::Identifier("item:abc".to_string()))]
    );
}

#[test]
fn merge_binds_identifier_and_patch() {
    let patch = GenericValue::Object(vec![bound("isArchived", GenericValue::Bool(true))]);
    let statement = merge_update("item:abc".to_string(), patch.clone());
    assert_eq!(statement.template(), "UPDATE $th MERGE $data RETURN *");
    assert_eq!(
        statement.bindings(),
        &vec![
            bound("th", GenericValue::Identifier("item:abc".to_string())),
            bound("data", patch)
        ]
    );
}

#[test]
fn delete_binds_the_identifier() {
    let statement = delete("user:ada".to_string());
    assert_eq!(statement.template(), "DELETE $th RETURN *");
    assert_eq!(
        statement.bindings(),
        &vec![bound("th", GenericValue::Identifier("user:ada".to_string()))]
    );
}

#[test]
fn fetch_all_names_the_table() {
    let statement = fetch_all("item");
    assert_eq!(statement.template(), "SELECT * FROM item;");
    assert!(statement.bindings().is_empty());
    assert_eq!(fetch_all("user").template(), "SELECT * FROM user;");
}

#[test]
fn search_writes_field_and_operator_and_binds_the_value() {
    let statement = search("item", "ownerId", Comparison::Equals, "owner_id", text_value("u-1"));
    assert_eq!(statement.template(), "SELECT * FROM item WHERE ownerId = $owner_id;");
    assert_eq!(statement.bindings(), &vec![bound("owner_id", text_value("u-1"))]);

    let statement = search("item", "name", Comparison::Contains, "name", text_value("Al"));
    assert_eq!(statement.template(), "SELECT * FROM item WHERE name CONTAINS $name;");

    let ids = GenericValue::Array(vec![text_value("item:a")]);
    let statement = search("item", "tagIds", Comparison::Inside, "ids", ids.clone());
    assert_eq!(statement.template(), "SELECT * FROM item WHERE tagIds INSIDE $ids;");
    assert_eq!(statement.bindings(), &vec![bound("ids", ids)]);
}

#[test]
fn operators_are_written_as_the_store_reads_them() {
    assert_eq!(Comparison::Equals.operator(), "=");
    assert_eq!(Comparison::Contains.operator(), "CONTAINS");
    assert_eq!(Comparison::Inside.operator(), "INSIDE");
}

#[test]
fn statement_hands_over_its_parts() {
    let statement = fetch_by_id("item:abc".to_string());
    let copy = statement.clone();
    assert_eq!(copy, statement);
    let (template, bindings) = statement.into_parts();
    assert_eq!(template, "SELECT * FROM $th");
    assert_eq!(bindings, vec![bound("th", GenericValue::Identifier("item:abc".to_string()))]);
}
