//! What holds of the codec for every record: reading back what was written
//! gives the record again, a patch writes the fields it sets and no others,
//! and so a merge of it leaves every other field as it was.

use vstd::prelude::*;
use crate::codec::{as_stored, from_stored, Decodable};
use crate::error::Failure;
use crate::item::{
    item_fields, item_patch_fields, read_item, ItemField, ItemModel, ItemPatchModel,
};
use crate::response::{done_reply, record_reply, records_reply, StatementOutcome};
use crate::user::{
    read_user, user_fields, user_patch_fields, UserField, UserModel, UserPatchModel,
};
use crate::value::Document;

verus! {

/// A number that was stored reads back as itself.
pub proof fn stored_number_round_trip(n: u64)
    ensures
        from_stored(as_stored(n)) == n,
{
}

/// What a stored record is after a merge of `patch` into it: the keys of
/// the patch hold what the patch gives them, every other key holds what it
/// held before. The store carries the merge out; this is what the merge
/// statement asks of it.
pub open spec fn merged(
    stored: Map<Seq<char>, Document>,
    patch: Map<Seq<char>, Document>,
) -> Map<Seq<char>, Document> {
    stored.union_prefer_right(patch)
}

/// An answer without any outcome is a missing response, whatever was asked
/// for: it is never read as a record, as no records, or as success.
pub proof fn empty_answer_is_missing_response<E: Decodable>()
    ensures
        record_reply::<E>(Seq::<StatementOutcome>::empty()) == Err::<E::V, Failure>(
            Failure::MissingResponse,
        ),
        records_reply::<E>(Seq::<StatementOutcome>::empty()) == Err::<Seq<E::V>, Failure>(
            Failure::MissingResponse,
        ),
        done_reply(Seq::<StatementOutcome>::empty()) == Err::<(), Failure>(
            Failure::MissingResponse,
        ),
{
}

/// The length and the first character of each key of an item record. No two
/// keys agree in both, so the keys differ from one another.
pub proof fn lemma_item_keys()
    ensures
        "id"@.len() == 2 && "id"@[0] == 'i',
        "cid"@.len() == 3 && "cid"@[0] == 'c',
        "name"@.len() == 4 && "name"@[0] == 'n',
        "ownerId"@.len() == 7 && "ownerId"@[0] == 'o',
        "version"@.len() == 7 && "version"@[0] == 'v',
        "content"@.len() == 7 && "content"@[0] == 'c',
        "imageUrl"@.len() == 8 && "imageUrl"@[0] == 'i',
        "creationDate"@.len() == 12 && "creationDate"@[0] == 'c',
        "editionDate"@.len() == 11 && "editionDate"@[0] == 'e',
        "tagIds"@.len() == 6 && "tagIds"@[0] == 't',
        "followerIds"@.len() == 11 && "followerIds"@[0] == 'f',
        "isVisible"@.len() == 9 && "isVisible"@[0] == 'i',
        "isArchived"@.len() == 10 && "isArchived"@[0] == 'i',
{
    reveal_strlit("id");
    reveal_strlit("cid");
    reveal_strlit("name");
    reveal_strlit("ownerId");
    reveal_strlit("version");
    reveal_strlit("content");
    reveal_strlit("imageUrl");
    reveal_strlit("creationDate");
    reveal_strlit("editionDate");
    reveal_strlit("tagIds");
    reveal_strlit("followerIds");
    reveal_strlit("isVisible");
    reveal_strlit("isArchived");
}

/// Reading the document that an item was written as gives the item again,
/// field for field, the identifier included.
pub proof fn item_round_trip(item: ItemModel)
    ensures
        read_item(Document::Record(item_fields(item))) == Ok::<ItemModel, Failure>(item),
{
    lemma_item_keys();
    stored_number_round_trip(item.version);
}

/// The document of a patch has a key exactly for each field that the patch
/// sets, the persisted name of that field, and under it the value that the
/// patch gives the field.
pub proof fn item_patch_minimal(patch: ItemPatchModel)
    ensures
        forall|key: Seq<char>| #[trigger]
            item_patch_fields(patch).contains_key(key) <==> exists|field: ItemField|
                patch.sets(field) && key == #[trigger] field.persisted_name(),
        patch.cid matches Some(v) ==> item_patch_fields(
            patch,
        )[ItemField::Cid.persisted_name()] == Document::Text(v),
        patch.name matches Some(v) ==> item_patch_fields(
            patch,
        )[ItemField::Name.persisted_name()] == Document::Text(v),
        patch.owner_id matches Some(v) ==> item_patch_fields(
            patch,
        )[ItemField::OwnerId.persisted_name()] == Document::Text(v),
        patch.version matches Some(v) ==> item_patch_fields(
            patch,
        )[ItemField::Version.persisted_name()] == Document::Number(as_stored(v)),
        patch.content matches Some(v) ==> item_patch_fields(
            patch,
        )[ItemField::Content.persisted_name()] == Document::List(v),
        patch.image_url matches Some(v) ==> item_patch_fields(
            patch,
        )[ItemField::ImageUrl.persisted_name()] == Document::Text(v),
        patch.creation_date matches Some(v) ==> item_patch_fields(
            patch,
        )[ItemField::CreationDate.persisted_name()] == Document::Text(v),
        patch.edition_date matches Some(v) ==> item_patch_fields(
            patch,
        )[ItemField::EditionDate.persisted_name()] == Document::Text(v),
        patch.tag_ids matches Some(v) ==> item_patch_fields(
            patch,
        )[ItemField::TagIds.persisted_name()] == Document::List(v),
        patch.follower_ids matches Some(v) ==> item_patch_fields(
            patch,
        )[ItemField::FollowerIds.persisted_name()] == Document::List(v),
        patch.is_visible matches Some(v) ==> item_patch_fields(
            patch,
        )[ItemField::IsVisible.persisted_name()] == Document::Bool(v),
        patch.is_archived matches Some(v) ==> item_patch_fields(
            patch,
        )[ItemField::IsArchived.persisted_name()] == Document::Bool(v),
{
    lemma_item_keys();
    assert forall|key: Seq<char>| #[trigger]
        item_patch_fields(patch).contains_key(key) implies exists|field: ItemField|
        patch.sets(field) && key == #[trigger] field.persisted_name() by {
        if key == ItemField::Cid.persisted_name() {
            assert(patch.sets(ItemField::Cid));
        } else if key == ItemField::Name.persisted_name() {
            assert(patch.sets(ItemField::Name));
        } else if key == ItemField::OwnerId.persisted_name() {
            assert(patch.sets(ItemField::OwnerId));
        } else if key == ItemField::Version.persisted_name() {
            assert(patch.sets(ItemField::Version));
        } else if key == ItemField::Content.persisted_name() {
            assert(patch.sets(ItemField::Content));
        } else if key == ItemField::ImageUrl.persisted_name() {
            assert(patch.sets(ItemField::ImageUrl));
        } else if key == ItemField::CreationDate.persisted_name() {
            assert(patch.sets(ItemField::CreationDate));
        } else if key == ItemField::EditionDate.persisted_name() {
            assert(patch.sets(ItemField::EditionDate));
        } else if key == ItemField::TagIds.persisted_name() {
            assert(patch.sets(ItemField::TagIds));
        } else if key == ItemField::FollowerIds.persisted_name() {
            assert(patch.sets(ItemField::FollowerIds));
        } else if key == ItemField::IsVisible.persisted_name() {
            assert(patch.sets(ItemField::IsVisible));
        } else if key == ItemField::IsArchived.persisted_name() {
            assert(patch.sets(ItemField::IsArchived));
        }
    }
    assert forall|key: Seq<char>|
        (exists|field: ItemField|
            patch.sets(field) && key == #[trigger] field.persisted_name())
        implies #[trigger] item_patch_fields(patch).contains_key(key) by {
        let field = choose|field: ItemField|
            patch.sets(field) && key == #[trigger] field.persisted_name();
        item_patch_has(patch, field);
    }
}

/// The document of a patch has a key for each field that the patch sets.
pub proof fn item_patch_has(patch: ItemPatchModel, field: ItemField)
    requires
        patch.sets(field),
    ensures
        item_patch_fields(patch).contains_key(field.persisted_name()),
{
    lemma_item_keys();
}

/// A merge of a patch leaves every field that the patch does not set as it
/// was stored, missing where it was missing, and gives every field that it
/// sets the value of the patch.
pub proof fn item_patch_merge(
    stored: Map<Seq<char>, Document>,
    patch: ItemPatchModel,
    field: ItemField,
)
    ensures
        !patch.sets(field) ==> merged(stored, item_patch_fields(patch)).contains_key(
            field.persisted_name(),
        ) == stored.contains_key(field.persisted_name()),
        !patch.sets(field) && stored.contains_key(field.persisted_name()) ==> merged(
            stored,
            item_patch_fields(patch),
        )[field.persisted_name()] == stored[field.persisted_name()],
        patch.sets(field) ==> merged(stored, item_patch_fields(patch)).contains_key(
            field.persisted_name(),
        ) && merged(stored, item_patch_fields(patch))[field.persisted_name()]
            == item_patch_fields(patch)[field.persisted_name()],
{
    lemma_item_keys();
}

/// The length and the first character of each key of a user record. No two
/// keys agree in both, so the keys differ from one another.
pub proof fn lemma_user_keys()
    ensures
        "id"@.len() == 2 && "id"@[0] == 'i',
        "cid"@.len() == 3 && "cid"@[0] == 'c',
        "publicKey"@.len() == 9 && "publicKey"@[0] == 'p',
        "privateKey"@.len() == 10 && "privateKey"@[0] == 'p',
        "name"@.len() == 4 && "name"@[0] == 'n',
        "version"@.len() == 7 && "version"@[0] == 'v',
        "avatar"@.len() == 6 && "avatar"@[0] == 'a',
        "email"@.len() == 5 && "email"@[0] == 'e',
        "creationDate"@.len() == 12 && "creationDate"@[0] == 'c',
        "onlineState"@.len() == 11 && "onlineState"@[0] == 'o',
        "followIds"@.len() == 9 && "followIds"@[0] == 'f',
        "isVisible"@.len() == 9 && "isVisible"@[0] == 'i',
        "isInactive"@.len() == 10 && "isInactive"@[0] == 'i',
{
    reveal_strlit("id");
    reveal_strlit("cid");
    reveal_strlit("publicKey");
    reveal_strlit("privateKey");
    reveal_strlit("name");
    reveal_strlit("version");
    reveal_strlit("avatar");
    reveal_strlit("email");
    reveal_strlit("creationDate");
    reveal_strlit("onlineState");
    reveal_strlit("followIds");
    reveal_strlit("isVisible");
    reveal_strlit("isInactive");
}

/// Reading the document that a user was written as gives the user again,
/// field for field, the identifier included.
pub proof fn user_round_trip(user: UserModel)
    ensures
        read_user(Document::Record(user_fields(user))) == Ok::<UserModel, Failure>(user),
{
    lemma_user_keys();
    stored_number_round_trip(user.version);
}

/// The document of a patch has a key exactly for each field that the patch
/// sets, the persisted name of that field, and under it the value that the
/// patch gives the field.
pub proof fn user_patch_minimal(patch: UserPatchModel)
    ensures
        forall|key: Seq<char>| #[trigger]
            user_patch_fields(patch).contains_key(key) <==> exists|field: UserField|
                patch.sets(field) && key == #[trigger] field.persisted_name(),
        patch.cid matches Some(v) ==> user_patch_fields(
            patch,
        )[UserField::Cid.persisted_name()] == Document::Text(v),
        patch.public_key matches Some(v) ==> user_patch_fields(
            patch,
        )[UserField::PublicKey.persisted_name()] == Document::Text(v),
        patch.private_key matches Some(v) ==> user_patch_fields(
            patch,
        )[UserField::PrivateKey.persisted_name()] == Document::Text(v),
        patch.name matches Some(v) ==> user_patch_fields(
            patch,
        )[UserField::Name.persisted_name()] == Document::Text(v),
        patch.version matches Some(v) ==> user_patch_fields(
            patch,
        )[UserField::Version.persisted_name()] == Document::Number(as_stored(v)),
        patch.avatar matches Some(v) ==> user_patch_fields(
            patch,
        )[UserField::Avatar.persisted_name()] == Document::Text(v),
        patch.email matches Some(v) ==> user_patch_fields(
            patch,
        )[UserField::Email.persisted_name()] == Document::Text(v),
        patch.creation_date matches Some(v) ==> user_patch_fields(
            patch,
        )[UserField::CreationDate.persisted_name()] == Document::Text(v),
        patch.online_state matches Some(v) ==> user_patch_fields(
            patch,
        )[UserField::OnlineState.persisted_name()] == Document::Text(v),
        patch.follow_ids matches Some(v) ==> user_patch_fields(
            patch,
        )[UserField::FollowIds.persisted_name()] == Document::List(v),
        patch.is_visible matches Some(v) ==> user_patch_fields(
            patch,
        )[UserField::IsVisible.persisted_name()] == Document::Bool(v),
        patch.is_inactive matches Some(v) ==> user_patch_fields(
            patch,
        )[UserField::IsInactive.persisted_name()] == Document::Bool(v),
{
    lemma_user_keys();
    assert forall|key: Seq<char>| #[trigger]
        user_patch_fields(patch).contains_key(key) implies exists|field: UserField|
        patch.sets(field) && key == #[trigger] field.persisted_name() by {
        if key == UserField::Cid.persisted_name() {
            assert(patch.sets(UserField::Cid));
        } else if key == UserField::PublicKey.persisted_name() {
            assert(patch.sets(UserField::PublicKey));
        } else if key == UserField::PrivateKey.persisted_name() {
            assert(patch.sets(UserField::PrivateKey));
        } else if key == UserField::Name.persisted_name() {
            assert(patch.sets(UserField::Name));
        } else if key == UserField::Version.persisted_name() {
            assert(patch.sets(UserField::Version));
        } else if key == UserField::Avatar.persisted_name() {
            assert(patch.sets(UserField::Avatar));
        } else if key == UserField::Email.persisted_name() {
            assert(patch.sets(UserField::Email));
        } else if key == UserField::CreationDate.persisted_name() {
            assert(patch.sets(UserField::CreationDate));
        } else if key == UserField::OnlineState.persisted_name() {
            assert(patch.sets(UserField::OnlineState));
        } else if key == UserField::FollowIds.persisted_name() {
            assert(patch.sets(UserField::FollowIds));
        } else if key == UserField::IsVisible.persisted_name() {
            assert(patch.sets(UserField::IsVisible));
        } else if key == UserField::IsInactive.persisted_name() {
            assert(patch.sets(UserField::IsInactive));
        }
    }
    assert forall|key: Seq<char>|
        (exists|field: UserField|
            patch.sets(field) && key == #[trigger] field.persisted_name())
        implies #[trigger] user_patch_fields(patch).contains_key(key) by {
        let field = choose|field: UserField|
            patch.sets(field) && key == #[trigger] field.persisted_name();
        user_patch_has(patch, field);
    }
}

/// The document of a patch has a key for each field that the patch sets.
pub proof fn user_patch_has(patch: UserPatchModel, field: UserField)
    requires
        patch.sets(field),
    ensures
        user_patch_fields(patch).contains_key(field.persisted_name()),
{
    lemma_user_keys();
}

/// A merge of a patch leaves every field that the patch does not set as it
/// was stored, missing where it was missing, and gives every field that it
/// sets the value of the patch.
pub proof fn user_patch_merge(
    stored: Map<Seq<char>, Document>,
    patch: UserPatchModel,
    field: UserField,
)
    ensures
        !patch.sets(field) ==> merged(stored, user_patch_fields(patch)).contains_key(
            field.persisted_name(),
        ) == stored.contains_key(field.persisted_name()),
        !patch.sets(field) && stored.contains_key(field.persisted_name()) ==> merged(
            stored,
            user_patch_fields(patch),
        )[field.persisted_name()] == stored[field.persisted_name()],
        patch.sets(field) ==> merged(stored, user_patch_fields(patch)).contains_key(
            field.persisted_name(),
        ) && merged(stored, user_patch_fields(patch))[field.persisted_name()]
            == user_patch_fields(patch)[field.persisted_name()],
{
    lemma_user_keys();
}

} // verus!
