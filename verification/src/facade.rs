//! The access facades, one for each entity type: what can be asked of the
//! store about items and about users.
//!
//! Every operation is one request and one answer. An operation gives its
//! request; the answer is handed to the request's `finish`.

use vstd::prelude::*;
use vstd::string::*;
use crate::codec::{Creatable, Patchable};
use crate::error::{AccessError, Failure};
use crate::identifier::{qualified, readable};
use crate::item::{Item, ItemField};
use crate::request::{
    create_request, delete_request, fetch_request, list_request, qualified_all, search_ids_request,
    refused, search_request, update_request, DeleteModel, DeleteRequest, ListRequest,
    RecordRequest, RequestModel,
};
use crate::statement::{
    create_statement, delete_statement, fetch_all_statement, fetch_statement, merge_statement,
    search_statement, Comparison, StatementModel,
};
use crate::user::{User, UserField};
use crate::value::{
    flag_or_false, same_text, text_or_empty, texts, texts_or_none, Document, GenericValue,
};

verus! {

/// The access facade of the `item` table.
pub struct ItemBMC;

/// The access facade of the `user` table.
pub struct UserBMC;

/// The local ids of the items to look up.
#[derive(Clone, Debug, PartialEq, Eq)]
pub struct SearchItemsByIds {
    pub ids: Vec<String>,
}

/// The local ids of the users to look up.
#[derive(Clone, Debug, PartialEq, Eq)]
pub struct SearchUsersByIds {
    pub ids: Vec<String>,
}

/// A search for items: the persisted name of a field, and the value to
/// compare it with.
#[derive(Debug, PartialEq, Eq)]
pub struct SearchItemsBy {
    pub param: (String, GenericValue),
}

/// A search for users: the persisted name of a field, and the value to
/// compare it with.
#[derive(Debug, PartialEq, Eq)]
pub struct SearchUsersBy {
    pub param: (String, GenericValue),
}

/// The texts of a sequence of owned texts.
pub open spec fn owned_texts(ids: Seq<String>) -> Seq<Seq<char>> {
    Seq::new(ids.len(), |i: int| ids[i]@)
}

/// The ids as text slices, in order.
pub fn borrow_ids(ids: &Vec<String>) -> (r: Vec<&str>)
    ensures
        texts(r@) == owned_texts(ids@),
{
    let mut out: Vec<&str> = Vec::new();
    let mut i: usize = 0;
    while i < ids.len()
        invariant
            i <= ids.len(),
            out.len() == i,
            forall|j: int| 0 <= j < i ==> (#[trigger] out[j])@ == ids[j]@,
        decreases ids.len() - i,
    {
        out.push(ids[i].as_str());
        i = i + 1;
    }
    assert(texts(out@) =~= owned_texts(ids@));
    out
}

impl SearchItemsByIds {
    /// The ids as text slices, in order.
    pub fn ids(&self) -> (r: Vec<&str>)
        ensures
            texts(r@) == owned_texts(self.ids@),
    {
        borrow_ids(&self.ids)
    }
}

impl SearchUsersByIds {
    /// The ids as text slices, in order.
    pub fn ids(&self) -> (r: Vec<&str>)
        ensures
            texts(r@) == owned_texts(self.ids@),
    {
        borrow_ids(&self.ids)
    }
}

/// The search for items that a field name and a value ask for, where the
/// name is that of a field that items are searched by.
///
/// A text field is compared with the value where the value is a text, and
/// with the empty text where it is not; a boolean field with the value
/// where it is a boolean, and with `false` where it is not; a field of ids
/// with the texts among the elements of the value.
pub open spec fn item_search(field: Seq<char>, value: Document) -> Option<StatementModel> {
    if field == "name"@ {
        Some(
            search_statement(
                "item"@,
                "name"@,
                Comparison::Contains,
                "name"@,
                Document::Text(text_or_empty(value)),
            ),
        )
    } else if field == "ownerId"@ {
        Some(
            search_statement(
                "item"@,
                "ownerId"@,
                Comparison::Equals,
                "owner_id"@,
                Document::Text(text_or_empty(value)),
            ),
        )
    } else if field == "creationDate"@ {
        Some(
            search_statement(
                "item"@,
                "creationDate"@,
                Comparison::Equals,
                "creation_date"@,
                Document::Text(text_or_empty(value)),
            ),
        )
    } else if field == "editionDate"@ {
        Some(
            search_statement(
                "item"@,
                "editionDate"@,
                Comparison::Equals,
                "edition_date"@,
                Document::Text(text_or_empty(value)),
            ),
        )
    } else if field == "tagIds"@ {
        Some(
            search_statement(
                "item"@,
                "tagIds"@,
                Comparison::Inside,
                "ids"@,
                Document::List(qualified_all("item"@, texts_or_none(value))),
            ),
        )
    } else if field == "followerIds"@ {
        Some(
            search_statement(
                "item"@,
                "followerIds"@,
                Comparison::Inside,
                "ids"@,
                Document::List(qualified_all("item"@, texts_or_none(value))),
            ),
        )
    } else if field == "isVisible"@ {
        Some(
            search_statement(
                "item"@,
                "isVisible"@,
                Comparison::Equals,
                "is_visible"@,
                Document::Bool(flag_or_false(value)),
            ),
        )
    } else if field == "isArchived"@ {
        Some(
            search_statement(
                "item"@,
                "isArchived"@,
                Comparison::Equals,
                "is_archived"@,
                Document::Bool(flag_or_false(value)),
            ),
        )
    } else {
        None
    }
}

impl ItemBMC {
    /// Every item.
    pub fn get_all() -> (r: ListRequest<Item>)
        ensures
            r@ == (RequestModel { statement: fetch_all_statement("item"@), mutating: true }),
    {
        list_request::<Item>("item")
    }

    /// The items whose identifier is among `item:id` for the given ids.
    pub fn search_by_ids(ids: Vec<&str>) -> (r: ListRequest<Item>)
        ensures
            r@ == (RequestModel {
                statement: search_statement(
                    "item"@,
                    "id"@,
                    Comparison::Inside,
                    "ids"@,
                    Document::List(qualified_all("item"@, texts(ids@))),
                ),
                mutating: true,
            }),
    {
        search_ids_request::<Item>("item", "id", &ids)
    }

    /// The items whose name contains `name`.
    pub fn search_by_name(name: &str) -> (r: ListRequest<Item>)
        ensures
            r@ == (RequestModel {
                statement: search_statement(
                    "item"@,
                    "name"@,
                    Comparison::Contains,
                    "name"@,
                    Document::Text(name@),
                ),
                mutating: true,
            }),
    {
        search_request::<Item>(
            "item",
            ItemField::Name.persisted(),
            Comparison::Contains,
            ItemField::Name.internal(),
            GenericValue::String(String::from_str(name)),
        )
    }

    /// The items of the owner `owner_id`.
    pub fn search_by_owner_id(owner_id: &str) -> (r: ListRequest<Item>)
        ensures
            r@ == (RequestModel {
                statement: search_statement(
                    "item"@,
                    "ownerId"@,
                    Comparison::Equals,
                    "owner_id"@,
                    Document::Text(owner_id@),
                ),
                mutating: true,
            }),
    {
        search_request::<Item>(
            "item",
            ItemField::OwnerId.persisted(),
            Comparison::Equals,
            ItemField::OwnerId.internal(),
            GenericValue::String(String::from_str(owner_id)),
        )
    }

    /// The items created on `creation_date`.
    pub fn search_by_creation_date(creation_date: &str) -> (r: ListRequest<Item>)
        ensures
            r@ == (RequestModel {
                statement: search_statement(
                    "item"@,
                    "creationDate"@,
                    Comparison::Equals,
                    "creation_date"@,
                    Document::Text(creation_date@),
                ),
                mutating: true,
            }),
    {
        search_request::<Item>(
            "item",
            ItemField::CreationDate.persisted(),
            Comparison::Equals,
            ItemField::CreationDate.internal(),
            GenericValue::String(String::from_str(creation_date)),
        )
    }

    /// The items last edited on `edition_date`.
    pub fn search_by_edition_date(edition_date: &str) -> (r: ListRequest<Item>)
        ensures
            r@ == (RequestModel {
                statement: search_statement(
                    "item"@,
                    "editionDate"@,
                    Comparison::Equals,
                    "edition_date"@,
                    Document::Text(edition_date@),
                ),
                mutating: true,
            }),
    {
        search_request::<Item>(
            "item",
            ItemField::EditionDate.persisted(),
            Comparison::Equals,
            ItemField::EditionDate.internal(),
            GenericValue::String(String::from_str(edition_date)),
        )
    }

    /// The items whose tags are among `item:id` for the given ids.
    pub fn search_by_tag_ids(tag_ids: Vec<&str>) -> (r: ListRequest<Item>)
        ensures
            r@ == (RequestModel {
                statement: search_statement(
                    "item"@,
                    "tagIds"@,
                    Comparison::Inside,
                    "ids"@,
                    Document::List(qualified_all("item"@, texts(tag_ids@))),
                ),
                mutating: true,
            }),
    {
        search_ids_request::<Item>("item", ItemField::TagIds.persisted(), &tag_ids)
    }

    /// The items whose followers are among `item:id` for the given ids.
    pub fn search_by_follower_ids(follower_ids: Vec<&str>) -> (r: ListRequest<Item>)
        ensures
            r@ == (RequestModel {
                statement: search_statement(
                    "item"@,
                    "followerIds"@,
                    Comparison::Inside,
                    "ids"@,
                    Document::List(qualified_all("item"@, texts(follower_ids@))),
                ),
                mutating: true,
            }),
    {
        search_ids_request::<Item>("item", ItemField::FollowerIds.persisted(), &follower_ids)
    }

    /// The items that are visible, or those that are not.
    pub fn search_by_is_visible(is_visible: bool) -> (r: ListRequest<Item>)
        ensures
            r@ == (RequestModel {
                statement: search_statement(
                    "item"@,
                    "isVisible"@,
                    Comparison::Equals,
                    "is_visible"@,
                    Document::Bool(is_visible),
                ),
                mutating: true,
            }),
    {
        search_request::<Item>(
            "item",
            ItemField::IsVisible.persisted(),
            Comparison::Equals,
            ItemField::IsVisible.internal(),
            GenericValue::Bool(is_visible),
        )
    }

    /// The items that are archived, or those that are not.
    pub fn search_by_is_archived(is_archived: bool) -> (r: ListRequest<Item>)
        ensures
            r@ == (RequestModel {
                statement: search_statement(
                    "item"@,
                    "isArchived"@,
                    Comparison::Equals,
                    "is_archived"@,
                    Document::Bool(is_archived),
                ),
                mutating: true,
            }),
    {
        search_request::<Item>(
            "item",
            ItemField::IsArchived.persisted(),
            Comparison::Equals,
            ItemField::IsArchived.internal(),
            GenericValue::Bool(is_archived),
        )
    }

    /// The search by the field that `field` names, with `value` to compare
    /// it with. A name that is not the persisted name of a field that items
    /// are searched by is refused with `InvalidSearchField`.
    pub fn search_by(field: &str, value: &GenericValue) -> (r: Result<
        ListRequest<Item>,
        AccessError,
    >)
        ensures
            match r {
                Ok(request) => item_search(field@, value@) == Some(request@.statement)
                    && request@.mutating,
                Err(e) => item_search(field@, value@) is None && e@ == Failure::InvalidSearchField(
                    field@,
                ),
            },
    {
        if same_text(field, ItemField::Name.persisted()) {
            Ok(Self::search_by_name(value.text_or_empty()))
        } else if same_text(field, ItemField::OwnerId.persisted()) {
            Ok(Self::search_by_owner_id(value.text_or_empty()))
        } else if same_text(field, ItemField::CreationDate.persisted()) {
            Ok(Self::search_by_creation_date(value.text_or_empty()))
        } else if same_text(field, ItemField::EditionDate.persisted()) {
            Ok(Self::search_by_edition_date(value.text_or_empty()))
        } else if same_text(field, ItemField::TagIds.persisted()) {
            Ok(Self::search_by_tag_ids(value.texts_or_none()))
        } else if same_text(field, ItemField::FollowerIds.persisted()) {
            Ok(Self::search_by_follower_ids(value.texts_or_none()))
        } else if same_text(field, ItemField::IsVisible.persisted()) {
            Ok(Self::search_by_is_visible(value.flag_or_false()))
        } else if same_text(field, ItemField::IsArchived.persisted()) {
            Ok(Self::search_by_is_archived(value.flag_or_false()))
        } else {
            Err(AccessError::InvalidSearchField(String::from_str(field)))
        }
    }

    /// Creates a record of the table `tb` from `data`. The answer is the
    /// stored item.
    pub fn create<T: Creatable>(tb: &str, data: T) -> (r: Result<RecordRequest<Item>, AccessError>)
        ensures
            match r {
                Ok(request) => data.created_document() is Record && request@ == (RequestModel {
                    statement: create_statement(tb@, data.created_document()),
                    mutating: false,
                }),
                Err(e) => !(data.created_document() is Record) && e@ == Failure::ValueNotOfType(
                    "Object"@,
                ),
            },
    {
        create_request::<Item, T>(tb, &data)
    }

    /// The item with the identifier `item:tid`.
    pub fn get(tid: &str) -> (r: Result<RecordRequest<Item>, AccessError>)
        ensures
            match r {
                Ok(request) => readable(qualified("item"@, tid@)) && request@ == (RequestModel {
                    statement: fetch_statement(qualified("item"@, tid@)),
                    mutating: true,
                }),
                Err(e) => !readable(qualified("item"@, tid@)) && refused(
                    qualified("item"@, tid@),
                    e,
                ),
            },
    {
        fetch_request::<Item>("item", tid)
    }

    /// Overwrites, in the item with the identifier `item:tid`, the fields
    /// that `data` holds. The answer is the stored item.
    pub fn update<T: Patchable>(tid: &str, data: T) -> (r: Result<RecordRequest<Item>, AccessError>)
        ensures
            match r {
                Ok(request) => readable(qualified("item"@, tid@)) && request@ == (RequestModel {
                    statement: merge_statement(qualified("item"@, tid@), data.patch_document()),
                    mutating: true,
                }),
                Err(e) => !readable(qualified("item"@, tid@)) && refused(
                    qualified("item"@, tid@),
                    e,
                ),
            },
    {
        update_request::<Item, T>("item", tid, &data)
    }

    /// Deletes the item with the identifier `item:tid`. The answer is that
    /// identifier.
    pub fn delete(tid: &str) -> (r: Result<DeleteRequest, AccessError>)
        ensures
            match r {
                Ok(request) => readable(qualified("item"@, tid@)) && request@ == (DeleteModel {
                    statement: delete_statement(qualified("item"@, tid@)),
                    mutating: false,
                    target: qualified("item"@, tid@),
                }),
                Err(e) => !readable(qualified("item"@, tid@)) && refused(
                    qualified("item"@, tid@),
                    e,
                ),
            },
    {
        delete_request("item", tid)
    }
}

impl UserField {
    /// The field with the persisted name `name`, if there is one.
    pub open spec fn named(name: Seq<char>) -> Option<UserField> {
        if name == "cid"@ {
            Some(UserField::Cid)
        } else if name == "publicKey"@ {
            Some(UserField::PublicKey)
        } else if name == "privateKey"@ {
            Some(UserField::PrivateKey)
        } else if name == "name"@ {
            Some(UserField::Name)
        } else if name == "version"@ {
            Some(UserField::Version)
        } else if name == "avatar"@ {
            Some(UserField::Avatar)
        } else if name == "email"@ {
            Some(UserField::Email)
        } else if name == "creationDate"@ {
            Some(UserField::CreationDate)
        } else if name == "onlineState"@ {
            Some(UserField::OnlineState)
        } else if name == "followIds"@ {
            Some(UserField::FollowIds)
        } else if name == "isVisible"@ {
            Some(UserField::IsVisible)
        } else if name == "isInactive"@ {
            Some(UserField::IsInactive)
        } else {
            None
        }
    }

    /// The field with the persisted name `name`, if there is one.
    pub fn from_persisted(name: &str) -> (r: Option<UserField>)
        ensures
            r == Self::named(name@),
            r matches Some(field) ==> field.persisted_name() == name@,
    {
        if same_text(name, UserField::Cid.persisted()) {
            Some(UserField::Cid)
        } else if same_text(name, UserField::PublicKey.persisted()) {
            Some(UserField::PublicKey)
        } else if same_text(name, UserField::PrivateKey.persisted()) {
            Some(UserField::PrivateKey)
        } else if same_text(name, UserField::Name.persisted()) {
            Some(UserField::Name)
        } else if same_text(name, UserField::Version.persisted()) {
            Some(UserField::Version)
        } else if same_text(name, UserField::Avatar.persisted()) {
            Some(UserField::Avatar)
        } else if same_text(name, UserField::Email.persisted()) {
            Some(UserField::Email)
        } else if same_text(name, UserField::CreationDate.persisted()) {
            Some(UserField::CreationDate)
        } else if same_text(name, UserField::OnlineState.persisted()) {
            Some(UserField::OnlineState)
        } else if same_text(name, UserField::FollowIds.persisted()) {
            Some(UserField::FollowIds)
        } else if same_text(name, UserField::IsVisible.persisted()) {
            Some(UserField::IsVisible)
        } else if same_text(name, UserField::IsInactive.persisted()) {
            Some(UserField::IsInactive)
        } else {
            None
        }
    }
}

/// The search for users that a field name and a value ask for, where the
/// name is the persisted name of a field of a user: the users whose field
/// equals the value.
pub open spec fn user_search(field: Seq<char>, value: Document) -> Option<StatementModel> {
    match UserField::named(field) {
        Some(found) => Some(
            search_statement(
                "user"@,
                found.persisted_name(),
                Comparison::Equals,
                "value"@,
                value,
            ),
        ),
        None => None,
    }
}

impl UserBMC {
    /// Every user.
    pub fn get_all() -> (r: ListRequest<User>)
        ensures
            r@ == (RequestModel { statement: fetch_all_statement("user"@), mutating: true }),
    {
        list_request::<User>("user")
    }

    /// The users whose identifier is among `user:id` for the given ids.
    pub fn search_by_ids(ids: Vec<&str>) -> (r: ListRequest<User>)
        ensures
            r@ == (RequestModel {
                statement: search_statement(
                    "user"@,
                    "id"@,
                    Comparison::Inside,
                    "ids"@,
                    Document::List(qualified_all("user"@, texts(ids@))),
                ),
                mutating: true,
            }),
    {
        search_ids_request::<User>("user", "id", &ids)
    }

    /// The users whose field named by `search.0` equals the value
    /// `search.1`. A name that is not the persisted name of a field of a
    /// user is refused with `InvalidSearchField`.
    pub fn search_by(search: (String, GenericValue)) -> (r: Result<ListRequest<User>, AccessError>)
        ensures
            match r {
                Ok(request) => user_search(search.0@, search.1@) == Some(request@.statement)
                    && request@.mutating,
                Err(e) => user_search(search.0@, search.1@) is None && e@
                    == Failure::InvalidSearchField(search.0@),
            },
    {
        let (field, value) = search;
        match UserField::from_persisted(field.as_str()) {
            Some(found) => Ok(
                search_request::<User>(
                    "user",
                    found.persisted(),
                    Comparison::Equals,
                    "value",
                    value,
                ),
            ),
            None => Err(AccessError::InvalidSearchField(field)),
        }
    }

    /// Creates a record of the table `tb` from `data`. The answer is the
    /// stored user.
    pub fn create<T: Creatable>(tb: &str, data: T) -> (r: Result<RecordRequest<User>, AccessError>)
        ensures
            match r {
                Ok(request) => data.created_document() is Record && request@ == (RequestModel {
                    statement: create_statement(tb@, data.created_document()),
                    mutating: false,
                }),
                Err(e) => !(data.created_document() is Record) && e@ == Failure::ValueNotOfType(
                    "Object"@,
                ),
            },
    {
        create_request::<User, T>(tb, &data)
    }

    /// The user with the identifier `user:tid`.
    pub fn get(tid: &str) -> (r: Result<RecordRequest<User>, AccessError>)
        ensures
            match r {
                Ok(request) => readable(qualified("user"@, tid@)) && request@ == (RequestModel {
                    statement: fetch_statement(qualified("user"@, tid@)),
                    mutating: true,
                }),
                Err(e) => !readable(qualified("user"@, tid@)) && refused(
                    qualified("user"@, tid@),
                    e,
                ),
            },
    {
        fetch_request::<User>("user", tid)
    }

    /// Overwrites, in the user with the identifier `user:tid`, the fields
    /// that `data` holds. The answer is the stored user.
    pub fn update<T: Patchable>(tid: &str, data: T) -> (r: Result<RecordRequest<User>, AccessError>)
        ensures
            match r {
                Ok(request) => readable(qualified("user"@, tid@)) && request@ == (RequestModel {
                    statement: merge_statement(qualified("user"@, tid@), data.patch_document()),
                    mutating: true,
                }),
                Err(e) => !readable(qualified("user"@, tid@)) && refused(
                    qualified("user"@, tid@),
                    e,
                ),
            },
    {
        update_request::<User, T>("user", tid, &data)
    }

    /// Deletes the user with the identifier `user:tid`. The answer is that
    /// identifier.
    pub fn delete(tid: &str) -> (r: Result<DeleteRequest, AccessError>)
        ensures
            match r {
                Ok(request) => readable(qualified("user"@, tid@)) && request@ == (DeleteModel {
                    statement: delete_statement(qualified("user"@, tid@)),
                    mutating: false,
                    target: qualified("user"@, tid@),
                }),
                Err(e) => !readable(qualified("user"@, tid@)) && refused(
                    qualified("user"@, tid@),
                    e,
                ),
            },
    {
        delete_request("user", tid)
    }
}

} // verus!
