//! The value codec: records to documents and back.

use entity_access::codec::{to_stored, to_unsigned, Creatable, Decodable, Patchable};
use entity_access::error::AccessError;
use entity_access::item::{Item, ItemField, ItemPatch};
use entity_access::user::{User, UserField, UserPatch};
use entity_access::value::{find, same_text, GenericValue};

fn text(s: &str) -> GenericValue {
    GenericValue::String(s.to_string())
}

fn entry(key: &str, value: GenericValue) -> (String, GenericValue) {
    (key.to_string(), value)
}

fn sample_item() -> Item {
    Item {
        id: None,
        cid: "c-9".to_string(),
        name: "Alpha".to_string(),
        owner_id: "u-1".to_string(),
        version: 7,
        content: vec![text("block"), GenericValue::Number(-2), GenericValue::Null],
        image_url: "img.png".to_string(),
        creation_date: "2022-10-01".to_string(),
        edition_date: "2022-10-02".to_string(),
        tag_ids: vec![text("t1")],
        follower_ids: vec![],
        is_visible: true,
        is_archived: false,
    }
}

fn sample_item_entries() -> Vec<(String, GenericValue)> {
    vec![
        entry("cid", text("c-9")),
        entry("name", text("Alpha")),
        entry("ownerId", text("u-1")),
        entry("version", GenericValue::Number(7)),
        entry(
            "content",
            GenericValue::Array(vec![text("block"), GenericValue::Number(-2), GenericValue::Null]),
        ),
        entry("imageUrl", text("img.png")),
        entry("creationDate", text("2022-10-01")),
        entry("editionDate", text("2022-10-02")),
        entry("tagIds", GenericValue::Array(vec![text("t1")])),
        entry("followerIds", GenericValue::Array(vec![])),
        entry("isVisible", GenericValue::Bool(true)),
        entry("isArchived", GenericValue::Bool(false)),
    ]
}

fn sample_user() -> User {
    User {
        id: None,
        cid: "c-3".to_string(),
        public_key: "pub".to_string(),
        private_key: "priv".to_string(),
        name: "Ada".to_string(),
        version: 1,
        avatar: "ada.png".to_string(),
        email: "ada@example.org".to_string(),
        creation_date: "2022-01-01".to_string(),
        online_state: "online".to_string(),
        follow_ids: vec![text("u-2"), text("u-3")],
        is_visible: true,
        is_inactive: false,
    }
}

fn sample_user_entries() -> Vec<(String, GenericValue)> {
    vec![
        entry("cid", text("c-3")),
        entry("publicKey", text("pub")),
        entry("privateKey", text("priv")),
        entry("name", text("Ada")),
        entry("version", GenericValue::Number(1)),
        entry("avatar", text("ada.png")),
        entry("email", text("ada@example.org")),
        entry("creationDate", text("2022-01-01")),
        entry("onlineState", text("online")),
        entry("followIds", GenericValue::Array(vec![text("u-2"), text("u-3")])),
        entry("isVisible", GenericValue::Bool(true)),
        entry("isInactive", GenericValue::Bool(false)),
    ]
}

fn empty_item_patch() -> ItemPatch {
    ItemPatch {
        cid: None,
        name: None,
        owner_id: None,
        version: None,
        content: None,
        image_url: None,
        creation_date: None,
        edition_date: None,
        tag_ids: None,
        follower_ids: None,
        is_visible: None,
        is_archived: None,
    }
}

fn empty_user_patch() -> UserPatch {
    UserPatch {
        cid: None,
        public_key: None,
        private_key: None,
        name: None,
        version: None,
        avatar: None,
        email: None,
        creation_date: None,
        online_state: None,
        follow_ids: None,
        is_visible: None,
        is_inactive: None,
    }
}

fn without(entries: &[(String, GenericValue)], key: &str) -> Vec<(String, GenericValue)> {
    entries.iter().filter(|(k, _)| k != key).cloned().collect()
}

fn replaced(
    entries: &[(String, GenericValue)],
    key: &str,
    value: GenericValue,
) -> Vec<(String, GenericValue)> {
    entries
        .iter()
        .map(|(k, v)| (k.clone(), if k == key { value.clone() } else { v.clone() }))
        .collect()
}

#[test]
fn item_is_written_under_its_persisted_names() {
    assert_eq!(sample_item().encode_create(), GenericValue::Object(sample_item_entries()));
}

#[test]
fn item_with_identifier_is_written_with_id_first() {
    let item = Item { id: Some("item:abc".to_string()), ..sample_item() };
    let mut expected = vec![entry("id", text("item:abc"))];
    expected.extend(sample_item_entries());
    assert_eq!(item.encode_create(), GenericValue::Object(expected));
}

#[test]
fn user_is_written_under_its_persisted_names() {
    assert_eq!(sample_user().encode_create(), GenericValue::Object(sample_user_entries()));
}

#[test]
fn item_field_names_follow_the_table() {
    let persisted = [
        (ItemField::Cid, "cid", "cid"),
        (ItemField::Name, "name", "name"),
        (ItemField::OwnerId, "owner_id", "ownerId"),
        (ItemField::Version, "version", "version"),
        (ItemField::Content, "content", "content"),
        (ItemField::ImageUrl, "image_url", "imageUrl"),
        (ItemField::CreationDate, "creation_date", "creationDate"),
        (ItemField::EditionDate, "edition_date", "editionDate"),
        (ItemField::TagIds, "tag_ids", "tagIds"),
        (ItemField::FollowerIds, "follower_ids", "followerIds"),
        (ItemField::IsVisible, "is_visible", "isVisible"),
        (ItemField::IsArchived, "is_archived", "isArchived"),
    ];
    for (field, internal, stored) in persisted {
        assert_eq!(field.internal(), internal);
        assert_eq!(field.persisted(), stored);
    }
}

#[test]
fn user_field_names_follow_the_table() {
    let persisted = [
        (UserField::Cid, "cid", "cid"),
        (UserField::PublicKey, "public_key", "publicKey"),
        (UserField::PrivateKey, "private_key", "privateKey"),
        (UserField::Name, "name", "name"),
        (UserField::Version, "version", "version"),
        (UserField::Avatar, "avatar", "avatar"),
        (UserField::Email, "email", "email"),
        (UserField::CreationDate, "creation_date", "creationDate"),
        (UserField::OnlineState, "online_state", "onlineState"),
        (UserField::FollowIds, "follow_ids", "followIds"),
        (UserField::IsVisible, "is_visible", "isVisible"),
        (UserField::IsInactive, "is_inactive", "isInactive"),
    ];
    for (field, internal, stored) in persisted {
        assert_eq!(field.internal(), internal);
        assert_eq!(field.persisted(), stored);
        assert_eq!(UserField::from_persisted(stored), Some(field));
    }
    assert_eq!(UserField::from_persisted("public_key"), None);
    assert_eq!(UserField::from_persisted(""), None);
}

#[test]
fn item_reads_back_as_it_was_written() {
    let item = sample_item();
    assert_eq!(Item::decode(&item.encode_create()).unwrap(), item);
    let stored = Item { id: Some("item:abc".to_string()), ..sample_item() };
    assert_eq!(Item::decode(&stored.encode_create()).unwrap(), stored);
}

#[test]
fn user_reads_back_as_it_was_written() {
    let user = sample_user();
    assert_eq!(User::decode(&user.encode_create()).unwrap(), user);
    let stored = User { id: Some("user:ada".to_string()), ..sample_user() };
    assert_eq!(User::decode(&stored.encode_create()).unwrap(), stored);
}

#[test]
fn versions_keep_their_bits_in_the_store() {
    assert_eq!(to_stored(0), 0);
    assert_eq!(to_stored(7), 7);
    assert_eq!(to_stored(9_223_372_036_854_775_807), i64::MAX);
    assert_eq!(to_stored(9_223_372_036_854_775_808), i64::MIN);
    assert_eq!(to_stored(u64::MAX), -1);
    assert_eq!(to_unsigned(0), 0);
    assert_eq!(to_unsigned(i64::MAX), 9_223_372_036_854_775_807);
    assert_eq!(to_unsigned(i64::MIN), 9_223_372_036_854_775_808);
    assert_eq!(to_unsigned(-1), u64::MAX);

    let item = Item { version: u64::MAX, ..sample_item() };
    let written = item.encode_create();
    assert_eq!(
        written,
        GenericValue::Object(replaced(&sample_item_entries(), "version", GenericValue::Number(-1)))
    );
    assert_eq!(Item::decode(&written).unwrap(), item);
}

#[test]
fn empty_patch_writes_no_key() {
    assert_eq!(empty_item_patch().encode_patch(), GenericValue::Object(vec![]));
    assert_eq!(empty_user_patch().encode_patch(), GenericValue::Object(vec![]));
}

#[test]
fn patch_writes_only_the_fields_it_sets() {
    let patch = ItemPatch { is_archived: Some(true), ..empty_item_patch() };
    assert_eq!(
        patch.encode_patch(),
        GenericValue::Object(vec![entry("isArchived", GenericValue::Bool(true))])
    );

    let patch = ItemPatch {
        owner_id: Some("u-2".to_string()),
        version: Some(8),
        tag_ids: Some(vec![text("t1"), text("t2")]),
        ..empty_item_patch()
    };
    assert_eq!(
        patch.encode_patch(),
        GenericValue::Object(vec![
            entry("ownerId", text("u-2")),
            entry("version", GenericValue::Number(8)),
            entry("tagIds", GenericValue::Array(vec![text("t1"), text("t2")])),
        ])
    );

    let patch = UserPatch {
        public_key: Some("k".to_string()),
        online_state: Some("away".to_string()),
        is_inactive: Some(true),
        ..empty_user_patch()
    };
    assert_eq!(
        patch.encode_patch(),
        GenericValue::Object(vec![
            entry("publicKey", text("k")),
            entry("onlineState", text("away")),
            entry("isInactive", GenericValue::Bool(true)),
        ])
    );
}

#[test]
fn patch_writes_false_and_empty_where_they_are_set() {
    let patch = ItemPatch {
        name: Some(String::new()),
        follower_ids: Some(vec![]),
        is_visible: Some(false),
        ..empty_item_patch()
    };
    assert_eq!(
        patch.encode_patch(),
        GenericValue::Object(vec![
            entry("name", text("")),
            entry("followerIds", GenericValue::Array(vec![])),
            entry("isVisible", GenericValue::Bool(false)),
        ])
    );
}

#[test]
fn full_patch_writes_every_key() {
    let item = sample_item();
    let patch = ItemPatch {
        cid: Some(item.cid.clone()),
        name: Some(item.name.clone()),
        owner_id: Some(item.owner_id.clone()),
        version: Some(item.version),
        content: Some(item.content.clone()),
        image_url: Some(item.image_url.clone()),
        creation_date: Some(item.creation_date.clone()),
        edition_date: Some(item.edition_date.clone()),
        tag_ids: Some(item.tag_ids.clone()),
        follower_ids: Some(item.follower_ids.clone()),
        is_visible: Some(item.is_visible),
        is_archived: Some(item.is_archived),
    };
    assert_eq!(patch.encode_patch(), GenericValue::Object(sample_item_entries()));
}

#[test]
fn every_subset_of_three_fields_writes_its_own_keys() {
    for mask in 0u8..8 {
        let patch = ItemPatch {
            cid: if mask & 1 != 0 { Some("c".to_string()) } else { None },
            edition_date: if mask & 2 != 0 { Some("d".to_string()) } else { None },
            is_archived: if mask & 4 != 0 { Some(false) } else { None },
            ..empty_item_patch()
        };
        let mut expected = Vec::new();
        if mask & 1 != 0 {
            expected.push(entry("cid", text("c")));
        }
        if mask & 2 != 0 {
            expected.push(entry("editionDate", text("d")));
        }
        if mask & 4 != 0 {
            expected.push(entry("isArchived", GenericValue::Bool(false)));
        }
        assert_eq!(patch.encode_patch(), GenericValue::Object(expected));
    }
}

#[test]
fn value_that_is_no_mapping_is_not_a_record() {
    for value in [
        GenericValue::Null,
        GenericValue::Bool(true),
        GenericValue::Number(1),
        text("item"),
        GenericValue::Array(vec![GenericValue::Object(sample_item_entries())]),
        GenericValue::Identifier("item:abc".to_string()),
    ] {
        assert!(matches!(Item::decode(&value), Err(AccessError::XValueNotOfType("Object"))));
        assert!(matches!(User::decode(&value), Err(AccessError::XValueNotOfType("Object"))));
    }
}

#[test]
fn missing_key_is_reported_by_name() {
    for key in [
        "cid", "name", "ownerId", "version", "content", "imageUrl", "creationDate", "editionDate",
        "tagIds", "followerIds", "isVisible", "isArchived",
    ] {
        let value = GenericValue::Object(without(&sample_item_entries(), key));
        match Item::decode(&value) {
            Err(AccessError::XPropertyNotFound(name)) => assert_eq!(name, key),
            other => panic!("{:?}", other),
        }
    }
    let value = GenericValue::Object(without(&sample_user_entries(), "onlineState"));
    match User::decode(&value) {
        Err(AccessError::XPropertyNotFound(name)) => assert_eq!(name, "onlineState"),
        other => panic!("{:?}", other),
    }
}

#[test]
fn wrong_shape_is_reported_by_the_shape_expected() {
    let cases = [
        ("name", GenericValue::Number(1), "String"),
        ("version", text("7"), "Number"),
        ("content", text("block"), "Array"),
        ("tagIds", GenericValue::Null, "Array"),
        ("isVisible", GenericValue::Number(1), "Bool"),
        ("isArchived", text("false"), "Bool"),
    ];
    for (key, value, shape) in cases {
        let document = GenericValue::Object(replaced(&sample_item_entries(), key, value));
        match Item::decode(&document) {
            Err(AccessError::XValueNotOfType(found)) => assert_eq!(found, shape),
            other => panic!("{:?}", other),
        }
    }
}

#[test]
fn first_field_at_fault_is_the_one_reported() {
    let entries = replaced(&without(&sample_item_entries(), "tagIds"), "name", GenericValue::Null);
    assert!(matches!(
        Item::decode(&GenericValue::Object(entries)),
        Err(AccessError::XValueNotOfType("String"))
    ));
    let entries = replaced(&without(&sample_item_entries(), "cid"), "name", GenericValue::Null);
    match Item::decode(&GenericValue::Object(entries)) {
        Err(AccessError::XPropertyNotFound(name)) => assert_eq!(name, "cid"),
        other => panic!("{:?}", other),
    }
}

#[test]
fn identifier_is_read_from_text_or_identifier() {
    let mut entries = sample_item_entries();
    entries.push(entry("id", GenericValue::Identifier("item:abc".to_string())));
    let item = Item::decode(&GenericValue::Object(entries)).unwrap();
    assert_eq!(item, Item { id: Some("item:abc".to_string()), ..sample_item() });

    let mut entries = sample_item_entries();
    entries.push(entry("id", text("item:xyz")));
    let item = Item::decode(&GenericValue::Object(entries)).unwrap();
    assert_eq!(item.id, Some("item:xyz".to_string()));

    let mut entries = sample_item_entries();
    entries.push(entry("id", GenericValue::Number(4)));
    assert!(matches!(
        Item::decode(&GenericValue::Object(entries)),
        Err(AccessError::XValueNotOfType("String"))
    ));
}

#[test]
fn keys_that_are_no_fields_are_passed_over() {
    let mut entries = sample_item_entries();
    entries.insert(0, entry("owner_id", text("other")));
    entries.push(entry("extra", GenericValue::Bool(true)));
    assert_eq!(Item::decode(&GenericValue::Object(entries)).unwrap(), sample_item());
}

#[test]
fn last_entry_of_a_key_counts() {
    let entries = vec![
        entry("a", GenericValue::Number(1)),
        entry("b", GenericValue::Number(2)),
        entry("a", GenericValue::Number(3)),
    ];
    assert_eq!(find(&entries, "a"), Some(&GenericValue::Number(3)));
    assert_eq!(find(&entries, "b"), Some(&GenericValue::Number(2)));
    assert_eq!(find(&entries, "c"), None);
    assert_eq!(find(&Vec::new(), "a"), None);

    let mut entries = sample_item_entries();
    entries.push(entry("name", text("Beta")));
    let item = Item::decode(&GenericValue::Object(entries)).unwrap();
    assert_eq!(item.name, "Beta");
}

#[test]
fn texts_are_compared_as_wholes() {
    assert!(same_text("ownerId", "ownerId"));
    assert!(same_text("", ""));
    assert!(!same_text("ownerId", "ownerid"));
    assert!(!same_text("owner", "ownerId"));
}

#[test]
fn values_give_up_what_they_hold() {
    assert_eq!(text("a").as_str(), Some("a"));
    assert_eq!(GenericValue::Identifier("item:a".to_string()).as_str(), None);
    assert_eq!(GenericValue::Number(1).as_str(), None);
    assert_eq!(GenericValue::Bool(true).as_bool(), Some(true));
    assert_eq!(text("true").as_bool(), None);
    assert_eq!(text("a").text_or_empty(), "a");
    assert_eq!(GenericValue::Null.text_or_empty(), "");
    assert!(GenericValue::Bool(true).flag_or_false());
    assert!(!GenericValue::Bool(false).flag_or_false());
    assert!(!text("true").flag_or_false());
    let list = GenericValue::Array(vec![text("a"), GenericValue::Number(2), text("c")]);
    assert_eq!(list.texts_or_none(), vec!["a", "", "c"]);
    assert_eq!(text("a").texts_or_none(), Vec::<&str>::new());
}

#[test]
fn copies_equal_what_they_copy() {
    let value = GenericValue::Object(vec![
        entry(
            "list",
            GenericValue::Array(vec![text("a"), GenericValue::Object(sample_user_entries())]),
        ),
        entry("id", GenericValue::Identifier("item:a".to_string())),
        entry("none", GenericValue::Null),
    ]);
    assert_eq!(value.clone(), value);
}
