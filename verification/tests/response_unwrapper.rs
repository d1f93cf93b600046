//! The response unwrapper: from the store's answer to values and records.

use entity_access::codec::Creatable;
use entity_access::error::AccessError;
use entity_access::item::Item;
use entity_access::response::{
    all_records, decode_each, done, first_record, first_statement, many_records, one_record,
};
use entity_access::user::User;
use entity_access::value::GenericValue;

fn word(s: &str) -> GenericValue {
    GenericValue::String(s.to_string())
}

fn item_named(name: &str) -> Item {
    Item {
        id: Some(format!("item:{}", name)),
        cid: "c".to_string(),
        name: name.to_string(),
        owner_id: "o".to_string(),
        version: 1,
        content: vec![],
        image_url: String::new(),
        creation_date: "d1".to_string(),
        edition_date: "d2".to_string(),
        tag_ids: vec![word("t1")],
        follower_ids: vec![],
        is_visible: true,
        is_archived: false,
    }
}

fn store_failure() -> surrealdb::Error {
    surrealdb::Error::QueryEmpty
}

#[test]
fn empty_answer_is_a_missing_response() {
    assert!(matches!(first_statement(vec![]), Err(AccessError::MissingResponse)));
    assert!(matches!(one_record::<Item>(vec![]), Err(AccessError::MissingResponse)));
    assert!(matches!(many_records::<Item>(vec![]), Err(AccessError::MissingResponse)));
    assert!(matches!(done(vec![]), Err(AccessError::MissingResponse)));
}

#[test]
fn first_outcome_is_the_one_that_counts() {
    assert_eq!(first_statement(vec![Ok(word("a")), Ok(word("b"))]).unwrap(), word("a"));
    assert_eq!(first_statement(vec![Ok(GenericValue::Null)]).unwrap(), GenericValue::Null);
    assert_eq!(
        first_statement(vec![Ok(word("a")), Err(store_failure())]).unwrap(),
        word("a")
    );
}

#[test]
fn failed_statement_gives_the_failure_of_the_store() {
    assert!(matches!(
        first_statement(vec![Err(store_failure())]),
        Err(AccessError::Surreal(surrealdb::Error::QueryEmpty))
    ));
    assert!(matches!(
        first_statement(vec![Err(surrealdb::Error::TxFinished), Ok(word("a"))]),
        Err(AccessError::Surreal(surrealdb::Error::TxFinished))
    ));
    assert!(matches!(
        one_record::<Item>(vec![Err(store_failure())]),
        Err(AccessError::Surreal(surrealdb::Error::QueryEmpty))
    ));
    assert!(matches!(
        many_records::<User>(vec![Err(store_failure())]),
        Err(AccessError::Surreal(surrealdb::Error::QueryEmpty))
    ));
    assert!(matches!(
        done(vec![Err(store_failure())]),
        Err(AccessError::Surreal(surrealdb::Error::QueryEmpty))
    ));
}

#[test]
fn first_record_is_the_first_element() {
    let records = GenericValue::Array(vec![word("a"), word("b"), word("c")]);
    assert_eq!(first_record(records).unwrap(), word("a"));
    assert_eq!(first_record(GenericValue::Array(vec![word("z")])).unwrap(), word("z"));
}

#[test]
fn no_record_is_a_missing_record() {
    assert!(matches!(first_record(GenericValue::Array(vec![])), Err(AccessError::MissingRecord)));
    assert!(matches!(
        one_record::<Item>(vec![Ok(GenericValue::Array(vec![]))]),
        Err(AccessError::MissingRecord)
    ));
}

#[test]
fn value_that_is_no_sequence_holds_no_records() {
    for value in [GenericValue::Null, word("a"), GenericValue::Object(vec![])] {
        assert!(matches!(
            first_record(value.clone()),
            Err(AccessError::XValueNotOfType("Array"))
        ));
        assert!(matches!(
            all_records(value.clone()),
            Err(AccessError::XValueNotOfType("Array"))
        ));
        assert!(matches!(
            one_record::<Item>(vec![Ok(value.clone())]),
            Err(AccessError::XValueNotOfType("Array"))
        ));
        assert!(matches!(
            many_records::<Item>(vec![Ok(value)]),
            Err(AccessError::XValueNotOfType("Array"))
        ));
    }
}

#[test]
fn all_records_are_given_unchanged() {
    let values = vec![word("a"), GenericValue::Number(2), word("c")];
    assert_eq!(all_records(GenericValue::Array(values.clone())).unwrap(), values);
    assert_eq!(all_records(GenericValue::Array(vec![])).unwrap(), vec![]);
}

#[test]
fn one_record_is_read_as_the_entity() {
    let stored = item_named("alpha");
    let answer = vec![Ok(GenericValue::Array(vec![stored.encode_create()]))];
    assert_eq!(one_record::<Item>(answer).unwrap(), stored);

    let answer = vec![Ok(GenericValue::Array(vec![
        item_named("alpha").encode_create(),
        item_named("beta").encode_create(),
    ]))];
    assert_eq!(one_record::<Item>(answer).unwrap(), item_named("alpha"));
}

#[test]
fn record_of_another_shape_is_a_type_mismatch() {
    let answer = vec![Ok(GenericValue::Array(vec![word("alpha")]))];
    assert!(matches!(one_record::<Item>(answer), Err(AccessError::XValueNotOfType("Object"))));
    let answer = vec![Ok(GenericValue::Array(vec![item_named("alpha").encode_create()]))];
    match one_record::<User>(answer) {
        Err(AccessError::XPropertyNotFound(key)) => assert_eq!(key, "publicKey"),
        other => panic!("{:?}", other),
    }
}

#[test]
fn many_records_keep_the_order_of_the_store() {
    let answer = vec![Ok(GenericValue::Array(vec![
        item_named("b").encode_create(),
        item_named("a").encode_create(),
        item_named("c").encode_create(),
    ]))];
    assert_eq!(
        many_records::<Item>(answer).unwrap(),
        vec![item_named("b"), item_named("a"), item_named("c")]
    );
}

#[test]
fn no_records_are_a_valid_answer() {
    let answer = vec![Ok(GenericValue::Array(vec![]))];
    assert_eq!(many_records::<Item>(answer).unwrap(), vec![]);
    assert_eq!(decode_each::<User>(&vec![]).unwrap(), vec![]);
}

#[test]
fn first_record_that_does_not_read_ends_the_reading() {
    let values = vec![
        item_named("a").encode_create(),
        word("broken"),
        GenericValue::Object(vec![]),
    ];
    assert!(matches!(
        decode_each::<Item>(&values),
        Err(AccessError::XValueNotOfType("Object"))
    ));
    let values = vec![
        item_named("a").encode_create(),
        GenericValue::Object(vec![]),
        word("broken"),
    ];
    match decode_each::<Item>(&values) {
        Err(AccessError::XPropertyNotFound(key)) => assert_eq!(key, "cid"),
        other => panic!("{:?}", other),
    }
}

#[test]
fn done_does_not_look_at_what_came_back() {
    assert!(done(vec![Ok(GenericValue::Array(vec![]))]).is_ok());
    assert!(done(vec![Ok(GenericValue::Null)]).is_ok());
    assert!(done(vec![Ok(word("anything")), Err(store_failure())]).is_ok());
}
