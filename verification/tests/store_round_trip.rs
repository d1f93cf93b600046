//! The access layer against the store itself, kept in memory.

use std::collections::BTreeMap;

use entity_access::error::AccessError;
use entity_access::facade::{ItemBMC, UserBMC};
use entity_access::item::{Item, ItemPatch};
use entity_access::user::User;
use entity_access::response::QueryResponse;
use entity_access::statement::QueryStatement;
use entity_access::value::GenericValue;
use surrealdb::sql::{Number, Value};
use surrealdb::{Datastore, Session};

fn to_store(value: &GenericValue) -> Value {
    match value {
        GenericValue::Null => Value::Null,
        GenericValue::Bool(flag) => Value::from(*flag),
        GenericValue::Number(n) => Value::from(*n),
        GenericValue::String(text) => Value::from(text.clone()),
        GenericValue::Array(items) => {
            Value::from(items.iter().map(to_store).collect::<Vec<Value>>())
        }
        GenericValue::Object(entries) => {
            let mut map = BTreeMap::new();
            for (key, item) in entries {
                map.insert(key.clone(), to_store(item));
            }
            Value::from(map)
        }
        GenericValue::Identifier(text) => {
            Value::from(surrealdb::sql::thing(text).expect("an identifier that parses"))
        }
    }
}

fn from_store(value: Value) -> GenericValue {
    match value {
        Value::None | Value::Null => GenericValue::Null,
        Value::True => GenericValue::Bool(true),
        Value::False => GenericValue::Bool(false),
        Value::Number(Number::Int(n)) => GenericValue::Number(n),
        Value::Strand(text) => GenericValue::String(text.0),
        Value::Array(items) => GenericValue::Array(items.0.into_iter().map(from_store).collect()),
        Value::Object(entries) => GenericValue::Object(
            entries.0.into_iter().map(|(key, item)| (key, from_store(item))).collect(),
        ),
        Value::Thing(thing) => GenericValue::Identifier(thing.to_string()),
        other => GenericValue::String(other.to_string()),
    }
}

struct Store {
    system: actix_web::rt::SystemRunner,
    datastore: Datastore,
    session: Session,
}

fn open_store() -> Store {
    let system = actix_web::rt::System::new();
    let datastore = system.block_on(Datastore::new("memory")).expect("a store in memory");
    let session = Session::for_kv().with_ns("test").with_db("test");
    Store { system, datastore, session }
}

fn submit(store: &Store, statement: &QueryStatement, mutating: bool) -> QueryResponse {
    let mut vars = BTreeMap::new();
    for (name, value) in statement.bindings() {
        vars.insert(name.clone(), to_store(value));
    }
    let submitted =
        store.datastore.execute(statement.template(), &store.session, Some(vars), mutating);
    let answer = store.system.block_on(submitted).expect("the store takes the statement");
    answer.into_iter().map(|outcome| outcome.result.map(from_store)).collect()
}

fn alpha() -> Item {
    Item {
        id: None,
        cid: "c-1".to_string(),
        name: "Alpha".to_string(),
        owner_id: "owner-1".to_string(),
        version: 3,
        content: vec![GenericValue::String("first".to_string()), GenericValue::Number(-7)],
        image_url: "http://example.org/a.png".to_string(),
        creation_date: "2023-01-02".to_string(),
        edition_date: "2023-01-03".to_string(),
        tag_ids: vec![GenericValue::String("t1".to_string())],
        follower_ids: vec![],
        is_visible: true,
        is_archived: false,
    }
}

fn local_part(identifier: &str) -> String {
    identifier.strip_prefix("item:").expect("an identifier of the item table").to_string()
}

fn archive_only() -> ItemPatch {
    ItemPatch {
        cid: None,
        name: None,
        owner_id: None,
        version: None,
        content: None,
        image_url: None,
        creation_date: None,
        edition_date: None,
        tag_ids: None,
        follower_ids: None,
        is_visible: None,
        is_archived: Some(true),
    }
}

#[test]
fn item_lives_through_create_get_update_delete() {
    let store = open_store();

    let request = ItemBMC::create("item", alpha()).expect("a request to create");
    let answer = submit(&store, request.statement(), request.mutating());
    let created = request.finish(answer).expect("the created item");
    let identifier = created.id.clone().expect("an identifier from the store");
    assert!(identifier.starts_with("item:"));
    assert_eq!(Item { id: None, ..created.clone() }, alpha());

    let local = local_part(&identifier);
    let request = ItemBMC::get(&local).expect("a request to get");
    let answer = submit(&store, request.statement(), request.mutating());
    let fetched = request.finish(answer).expect("the fetched item");
    assert_eq!(fetched, created);
    assert_eq!(fetched.name, "Alpha");
    assert_eq!(fetched.tag_ids, vec![GenericValue::String("t1".to_string())]);
    assert!(fetched.is_visible);

    let request = ItemBMC::update(&local, archive_only()).expect("a request to update");
    let answer = submit(&store, request.statement(), request.mutating());
    let updated = request.finish(answer).expect("the updated item");
    assert!(updated.is_archived);
    assert_eq!(Item { is_archived: false, ..updated.clone() }, created);
    assert_eq!(updated.name, "Alpha");
    assert_eq!(updated.tag_ids, vec![GenericValue::String("t1".to_string())]);
    assert!(updated.is_visible);

    let request = ItemBMC::delete(&local).expect("a request to delete");
    let answer = submit(&store, request.statement(), request.mutating());
    let deleted = request.finish(answer).expect("the deleted identifier");
    assert_eq!(deleted, identifier);

    let request = ItemBMC::get(&local).expect("a request to get");
    let answer = submit(&store, request.statement(), request.mutating());
    let gone = request.finish(answer);
    assert!(matches!(gone, Err(AccessError::MissingRecord)));
}

fn beta() -> Item {
    Item {
        cid: "c-2".to_string(),
        name: "Beta".to_string(),
        owner_id: "owner-2".to_string(),
        tag_ids: vec![GenericValue::String("t2".to_string())],
        is_visible: false,
        ..alpha()
    }
}

fn ada() -> User {
    User {
        id: None,
        cid: "c-3".to_string(),
        public_key: "pub".to_string(),
        private_key: "priv".to_string(),
        name: "Ada".to_string(),
        version: u64::MAX,
        avatar: "ada.png".to_string(),
        email: "ada@example.org".to_string(),
        creation_date: "2022-01-01".to_string(),
        online_state: "online".to_string(),
        follow_ids: vec![GenericValue::String("u-2".to_string())],
        is_visible: true,
        is_inactive: false,
    }
}

fn store_item(store: &Store, item: Item) -> Item {
    let request = ItemBMC::create("item", item).expect("a request to create");
    let answer = submit(store, request.statement(), request.mutating());
    request.finish(answer).expect("the created item")
}

fn names(items: &[Item]) -> Vec<String> {
    let mut names: Vec<String> = items.iter().map(|item| item.name.clone()).collect();
    names.sort();
    names
}

#[test]
fn store_without_the_table_fails_the_statement() {
    let store = open_store();
    let request = ItemBMC::get_all();
    let answer = submit(&store, request.statement(), request.mutating());
    assert_eq!(answer.len(), 1);
    assert!(matches!(request.finish(answer), Err(AccessError::Surreal(_))));
}

#[test]
fn stored_items_are_listed_and_found() {
    let store = open_store();
    let first = store_item(&store, alpha());
    let second = store_item(&store, beta());
    assert_ne!(first.id, second.id);

    let request = ItemBMC::get_all();
    let answer = submit(&store, request.statement(), request.mutating());
    let all = request.finish(answer).expect("every item");
    assert_eq!(names(&all), vec!["Alpha", "Beta"]);

    let request = ItemBMC::search_by_name("lph");
    let answer = submit(&store, request.statement(), request.mutating());
    assert_eq!(request.finish(answer).expect("the items found"), vec![first.clone()]);

    let request = ItemBMC::search_by_owner_id("owner-2");
    let answer = submit(&store, request.statement(), request.mutating());
    assert_eq!(request.finish(answer).expect("the items found"), vec![second.clone()]);

    let request = ItemBMC::search_by("isVisible", &GenericValue::Bool(true)).unwrap();
    let answer = submit(&store, request.statement(), request.mutating());
    assert_eq!(request.finish(answer).expect("the items found"), vec![first.clone()]);

    let request = ItemBMC::search_by_creation_date("1999-01-01");
    let answer = submit(&store, request.statement(), request.mutating());
    assert_eq!(request.finish(answer).expect("no items"), vec![]);
}

#[test]
fn user_lives_in_its_own_table() {
    let store = open_store();
    let request = UserBMC::create("user", ada()).expect("a request to create");
    let answer = submit(&store, request.statement(), request.mutating());
    let created = request.finish(answer).expect("the created user");
    let identifier = created.id.clone().expect("an identifier from the store");
    assert!(identifier.starts_with("user:"));
    assert_eq!(User { id: None, ..created.clone() }, ada());
    assert_eq!(created.version, u64::MAX);

    let local = identifier.strip_prefix("user:").unwrap().to_string();
    let request = UserBMC::get(&local).expect("a request to get");
    let answer = submit(&store, request.statement(), request.mutating());
    assert_eq!(request.finish(answer).expect("the fetched user"), created);

    let by_email = ("email".to_string(), GenericValue::String("ada@example.org".to_string()));
    let request = UserBMC::search_by(by_email).expect("a request to search");
    let answer = submit(&store, request.statement(), request.mutating());
    assert_eq!(request.finish(answer).expect("the users found"), vec![created.clone()]);

    let request = UserBMC::get("nobody").expect("a request to get");
    let answer = submit(&store, request.statement(), request.mutating());
    assert!(matches!(request.finish(answer), Err(AccessError::MissingRecord)));
}
