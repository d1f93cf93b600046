//! The item entity: its fields, its persisted names and its codec.

use vstd::prelude::*;
use crate::codec::{
    as_stored, flag_at, id_at, list_at, list_model, number_at, put, put_flag, put_list,
    put_number, put_text, read_flag, read_id, read_list, read_number, read_text, text_at,
    text_model, to_stored, with_flag, with_list, with_number, with_text, Creatable, Decodable,
    Patchable,
};
use crate::error::{AccessError, Failure};
use crate::value::{clone_values, documents, fields, Document, GenericValue};

verus! {

/// The fields of an item, as the record type names them.
#[derive(Clone, Copy, Debug, PartialEq, Eq)]
pub enum ItemField {
    Cid,
    Name,
    OwnerId,
    Version,
    Content,
    ImageUrl,
    CreationDate,
    EditionDate,
    TagIds,
    FollowerIds,
    IsVisible,
    IsArchived,
}

impl ItemField {
    /// The key under which the store keeps the field.
    pub open spec fn persisted_name(self) -> Seq<char> {
        match self {
            ItemField::Cid => "cid"@,
            ItemField::Name => "name"@,
            ItemField::OwnerId => "ownerId"@,
            ItemField::Version => "version"@,
            ItemField::Content => "content"@,
            ItemField::ImageUrl => "imageUrl"@,
            ItemField::CreationDate => "creationDate"@,
            ItemField::EditionDate => "editionDate"@,
            ItemField::TagIds => "tagIds"@,
            ItemField::FollowerIds => "followerIds"@,
            ItemField::IsVisible => "isVisible"@,
            ItemField::IsArchived => "isArchived"@,
        }
    }

    /// The name of the field in the record type.
    pub open spec fn internal_name(self) -> Seq<char> {
        match self {
            ItemField::Cid => "cid"@,
            ItemField::Name => "name"@,
            ItemField::OwnerId => "owner_id"@,
            ItemField::Version => "version"@,
            ItemField::Content => "content"@,
            ItemField::ImageUrl => "image_url"@,
            ItemField::CreationDate => "creation_date"@,
            ItemField::EditionDate => "edition_date"@,
            ItemField::TagIds => "tag_ids"@,
            ItemField::FollowerIds => "follower_ids"@,
            ItemField::IsVisible => "is_visible"@,
            ItemField::IsArchived => "is_archived"@,
        }
    }

    /// The key under which the store keeps the field.
    pub fn persisted(self) -> (r: &'static str)
        ensures
            r@ == self.persisted_name(),
    {
        match self {
            ItemField::Cid => "cid",
            ItemField::Name => "name",
            ItemField::OwnerId => "ownerId",
            ItemField::Version => "version",
            ItemField::Content => "content",
            ItemField::ImageUrl => "imageUrl",
            ItemField::CreationDate => "creationDate",
            ItemField::EditionDate => "editionDate",
            ItemField::TagIds => "tagIds",
            ItemField::FollowerIds => "followerIds",
            ItemField::IsVisible => "isVisible",
            ItemField::IsArchived => "isArchived",
        }
    }

    /// The name of the field in the record type.
    pub fn internal(self) -> (r: &'static str)
        ensures
            r@ == self.internal_name(),
    {
        match self {
            ItemField::Cid => "cid",
            ItemField::Name => "name",
            ItemField::OwnerId => "owner_id",
            ItemField::Version => "version",
            ItemField::Content => "content",
            ItemField::ImageUrl => "image_url",
            ItemField::CreationDate => "creation_date",
            ItemField::EditionDate => "edition_date",
            ItemField::TagIds => "tag_ids",
            ItemField::FollowerIds => "follower_ids",
            ItemField::IsVisible => "is_visible",
            ItemField::IsArchived => "is_archived",
        }
    }
}

/// An item. `id` is absent until the store has assigned one.
#[derive(Clone, Debug, PartialEq, Eq)]
pub struct Item {
    pub id: Option<String>,
    pub cid: String,
    pub name: String,
    pub owner_id: String,
    pub version: u64,
    pub content: Vec<GenericValue>,
    pub image_url: String,
    pub creation_date: String,
    pub edition_date: String,
    pub tag_ids: Vec<GenericValue>,
    pub follower_ids: Vec<GenericValue>,
    pub is_visible: bool,
    pub is_archived: bool,
}

/// The mathematical model of an [`Item`].
pub struct ItemModel {
    pub id: Option<Seq<char>>,
    pub cid: Seq<char>,
    pub name: Seq<char>,
    pub owner_id: Seq<char>,
    pub version: u64,
    pub content: Seq<Document>,
    pub image_url: Seq<char>,
    pub creation_date: Seq<char>,
    pub edition_date: Seq<char>,
    pub tag_ids: Seq<Document>,
    pub follower_ids: Seq<Document>,
    pub is_visible: bool,
    pub is_archived: bool,
}

impl View for Item {
    type V = ItemModel;

    open spec fn view(&self) -> ItemModel {
        ItemModel {
            id: text_model(self.id),
            cid: self.cid@,
            name: self.name@,
            owner_id: self.owner_id@,
            version: self.version,
            content: documents(self.content@),
            image_url: self.image_url@,
            creation_date: self.creation_date@,
            edition_date: self.edition_date@,
            tag_ids: documents(self.tag_ids@),
            follower_ids: documents(self.follower_ids@),
            is_visible: self.is_visible,
            is_archived: self.is_archived,
        }
    }
}

/// The mapping that stands for an item: every field under its persisted
/// name, and the identifier under `id` where the item has one.
pub open spec fn item_fields(item: ItemModel) -> Map<Seq<char>, Document> {
    let m = with_text(Map::empty(), "id"@, item.id);
    let m = m.insert(ItemField::Cid.persisted_name(), Document::Text(item.cid));
    let m = m.insert(ItemField::Name.persisted_name(), Document::Text(item.name));
    let m = m.insert(ItemField::OwnerId.persisted_name(), Document::Text(item.owner_id));
    let m = m.insert(
        ItemField::Version.persisted_name(),
        Document::Number(as_stored(item.version)),
    );
    let m = m.insert(ItemField::Content.persisted_name(), Document::List(item.content));
    let m = m.insert(ItemField::ImageUrl.persisted_name(), Document::Text(item.image_url));
    let m = m.insert(ItemField::CreationDate.persisted_name(), Document::Text(item.creation_date));
    let m = m.insert(ItemField::EditionDate.persisted_name(), Document::Text(item.edition_date));
    let m = m.insert(ItemField::TagIds.persisted_name(), Document::List(item.tag_ids));
    let m = m.insert(ItemField::FollowerIds.persisted_name(), Document::List(item.follower_ids));
    let m = m.insert(ItemField::IsVisible.persisted_name(), Document::Bool(item.is_visible));
    m.insert(ItemField::IsArchived.persisted_name(), Document::Bool(item.is_archived))
}

impl Creatable for Item {
    open spec fn created_document(&self) -> Document {
        Document::Record(item_fields(self@))
    }

    fn encode_create(&self) -> (r: GenericValue) {
        let mut entries: Vec<(String, GenericValue)> = Vec::new();
        assert(fields(entries@) =~= Map::empty());
        put_text(&mut entries, "id", &self.id);
        put(&mut entries, ItemField::Cid.persisted(), GenericValue::String(self.cid.clone()));
        put(&mut entries, ItemField::Name.persisted(), GenericValue::String(self.name.clone()));
        put(
            &mut entries,
            ItemField::OwnerId.persisted(),
            GenericValue::String(self.owner_id.clone()),
        );
        put(
            &mut entries,
            ItemField::Version.persisted(),
            GenericValue::Number(to_stored(self.version)),
        );
        put(
            &mut entries,
            ItemField::Content.persisted(),
            GenericValue::Array(clone_values(&self.content)),
        );
        put(
            &mut entries,
            ItemField::ImageUrl.persisted(),
            GenericValue::String(self.image_url.clone()),
        );
        put(
            &mut entries,
            ItemField::CreationDate.persisted(),
            GenericValue::String(self.creation_date.clone()),
        );
        put(
            &mut entries,
            ItemField::EditionDate.persisted(),
            GenericValue::String(self.edition_date.clone()),
        );
        put(
            &mut entries,
            ItemField::TagIds.persisted(),
            GenericValue::Array(clone_values(&self.tag_ids)),
        );
        put(
            &mut entries,
            ItemField::FollowerIds.persisted(),
            GenericValue::Array(clone_values(&self.follower_ids)),
        );
        put(&mut entries, ItemField::IsVisible.persisted(), GenericValue::Bool(self.is_visible));
        put(&mut entries, ItemField::IsArchived.persisted(), GenericValue::Bool(self.is_archived));
        GenericValue::Object(entries)
    }
}

/// The fields to overwrite in a stored item. An absent field is left as it
/// is; a present one is overwritten, also with `false` or an empty sequence.
#[derive(Clone, Debug, PartialEq, Eq)]
pub struct ItemPatch {
    pub cid: Option<String>,
    pub name: Option<String>,
    pub owner_id: Option<String>,
    pub version: Option<u64>,
    pub content: Option<Vec<GenericValue>>,
    pub image_url: Option<String>,
    pub creation_date: Option<String>,
    pub edition_date: Option<String>,
    pub tag_ids: Option<Vec<GenericValue>>,
    pub follower_ids: Option<Vec<GenericValue>>,
    pub is_visible: Option<bool>,
    pub is_archived: Option<bool>,
}

/// The mathematical model of an [`ItemPatch`].
pub struct ItemPatchModel {
    pub cid: Option<Seq<char>>,
    pub name: Option<Seq<char>>,
    pub owner_id: Option<Seq<char>>,
    pub version: Option<u64>,
    pub content: Option<Seq<Document>>,
    pub image_url: Option<Seq<char>>,
    pub creation_date: Option<Seq<char>>,
    pub edition_date: Option<Seq<char>>,
    pub tag_ids: Option<Seq<Document>>,
    pub follower_ids: Option<Seq<Document>>,
    pub is_visible: Option<bool>,
    pub is_archived: Option<bool>,
}

impl View for ItemPatch {
    type V = ItemPatchModel;

    open spec fn view(&self) -> ItemPatchModel {
        ItemPatchModel {
            cid: text_model(self.cid),
            name: text_model(self.name),
            owner_id: text_model(self.owner_id),
            version: self.version,
            content: list_model(self.content),
            image_url: text_model(self.image_url),
            creation_date: text_model(self.creation_date),
            edition_date: text_model(self.edition_date),
            tag_ids: list_model(self.tag_ids),
            follower_ids: list_model(self.follower_ids),
            is_visible: self.is_visible,
            is_archived: self.is_archived,
        }
    }
}

impl ItemPatchModel {
    /// Whether the patch sets the field.
    pub open spec fn sets(self, field: ItemField) -> bool {
        match field {
            ItemField::Cid => self.cid is Some,
            ItemField::Name => self.name is Some,
            ItemField::OwnerId => self.owner_id is Some,
            ItemField::Version => self.version is Some,
            ItemField::Content => self.content is Some,
            ItemField::ImageUrl => self.image_url is Some,
            ItemField::CreationDate => self.creation_date is Some,
            ItemField::EditionDate => self.edition_date is Some,
            ItemField::TagIds => self.tag_ids is Some,
            ItemField::FollowerIds => self.follower_ids is Some,
            ItemField::IsVisible => self.is_visible is Some,
            ItemField::IsArchived => self.is_archived is Some,
        }
    }
}

/// The mapping that stands for an item patch: each present field under its
/// persisted name.
pub open spec fn item_patch_fields(patch: ItemPatchModel) -> Map<Seq<char>, Document> {
    let m = with_text(Map::empty(), ItemField::Cid.persisted_name(), patch.cid);
    let m = with_text(m, ItemField::Name.persisted_name(), patch.name);
    let m = with_text(m, ItemField::OwnerId.persisted_name(), patch.owner_id);
    let m = with_number(m, ItemField::Version.persisted_name(), patch.version);
    let m = with_list(m, ItemField::Content.persisted_name(), patch.content);
    let m = with_text(m, ItemField::ImageUrl.persisted_name(), patch.image_url);
    let m = with_text(m, ItemField::CreationDate.persisted_name(), patch.creation_date);
    let m = with_text(m, ItemField::EditionDate.persisted_name(), patch.edition_date);
    let m = with_list(m, ItemField::TagIds.persisted_name(), patch.tag_ids);
    let m = with_list(m, ItemField::FollowerIds.persisted_name(), patch.follower_ids);
    let m = with_flag(m, ItemField::IsVisible.persisted_name(), patch.is_visible);
    with_flag(m, ItemField::IsArchived.persisted_name(), patch.is_archived)
}

impl Patchable for ItemPatch {
    open spec fn patch_document(&self) -> Document {
        Document::Record(item_patch_fields(self@))
    }

    fn encode_patch(&self) -> (r: GenericValue) {
        let mut entries: Vec<(String, GenericValue)> = Vec::new();
        assert(fields(entries@) =~= Map::empty());
        put_text(&mut entries, ItemField::Cid.persisted(), &self.cid);
        put_text(&mut entries, ItemField::Name.persisted(), &self.name);
        put_text(&mut entries, ItemField::OwnerId.persisted(), &self.owner_id);
        put_number(&mut entries, ItemField::Version.persisted(), &self.version);
        put_list(&mut entries, ItemField::Content.persisted(), &self.content);
        put_text(&mut entries, ItemField::ImageUrl.persisted(), &self.image_url);
        put_text(&mut entries, ItemField::CreationDate.persisted(), &self.creation_date);
        put_text(&mut entries, ItemField::EditionDate.persisted(), &self.edition_date);
        put_list(&mut entries, ItemField::TagIds.persisted(), &self.tag_ids);
        put_list(&mut entries, ItemField::FollowerIds.persisted(), &self.follower_ids);
        put_flag(&mut entries, ItemField::IsVisible.persisted(), &self.is_visible);
        put_flag(&mut entries, ItemField::IsArchived.persisted(), &self.is_archived);
        GenericValue::Object(entries)
    }
}

/// What a document reads as, as an item: the item whose fields the document
/// holds under their persisted names, or the first field, in the order of
/// the record type, that is missing or has another shape.
pub open spec fn read_item(document: Document) -> Result<ItemModel, Failure> {
    match document {
        Document::Record(record) => {
            let id = id_at(record);
            let cid = text_at(record, ItemField::Cid.persisted_name());
            let name = text_at(record, ItemField::Name.persisted_name());
            let owner_id = text_at(record, ItemField::OwnerId.persisted_name());
            let version = number_at(record, ItemField::Version.persisted_name());
            let content = list_at(record, ItemField::Content.persisted_name());
            let image_url = text_at(record, ItemField::ImageUrl.persisted_name());
            let creation_date = text_at(record, ItemField::CreationDate.persisted_name());
            let edition_date = text_at(record, ItemField::EditionDate.persisted_name());
            let tag_ids = list_at(record, ItemField::TagIds.persisted_name());
            let follower_ids = list_at(record, ItemField::FollowerIds.persisted_name());
            let is_visible = flag_at(record, ItemField::IsVisible.persisted_name());
            let is_archived = flag_at(record, ItemField::IsArchived.persisted_name());
            if id is Err {
                Err(id->Err_0)
            } else if cid is Err {
                Err(cid->Err_0)
            } else if name is Err {
                Err(name->Err_0)
            } else if owner_id is Err {
                Err(owner_id->Err_0)
            } else if version is Err {
                Err(version->Err_0)
            } else if content is Err {
                Err(content->Err_0)
            } else if image_url is Err {
                Err(image_url->Err_0)
            } else if creation_date is Err {
                Err(creation_date->Err_0)
            } else if edition_date is Err {
                Err(edition_date->Err_0)
            } else if tag_ids is Err {
                Err(tag_ids->Err_0)
            } else if follower_ids is Err {
                Err(follower_ids->Err_0)
            } else if is_visible is Err {
                Err(is_visible->Err_0)
            } else if is_archived is Err {
                Err(is_archived->Err_0)
            } else {
                Ok(
                    ItemModel {
                        id: id->Ok_0,
                        cid: cid->Ok_0,
                        name: name->Ok_0,
                        owner_id: owner_id->Ok_0,
                        version: version->Ok_0,
                        content: content->Ok_0,
                        image_url: image_url->Ok_0,
                        creation_date: creation_date->Ok_0,
                        edition_date: edition_date->Ok_0,
                        tag_ids: tag_ids->Ok_0,
                        follower_ids: follower_ids->Ok_0,
                        is_visible: is_visible->Ok_0,
                        is_archived: is_archived->Ok_0,
                    },
                )
            }
        },
        _ => Err(Failure::ValueNotOfType("Object"@)),
    }
}

impl Decodable for Item {
    open spec fn read(document: Document) -> Result<ItemModel, Failure> {
        read_item(document)
    }

    fn decode(value: &GenericValue) -> (r: Result<Item, AccessError>) {
        let entries = match value {
            GenericValue::Object(entries) => entries,
            _ => {
                return Err(AccessError::XValueNotOfType("Object"));
            },
        };
        let id = match read_id(entries) {
            Ok(v) => v,
            Err(e) => {
                return Err(e);
            },
        };
        let cid = match read_text(entries, ItemField::Cid.persisted()) {
            Ok(v) => v,
            Err(e) => {
                return Err(e);
            },
        };
        let name = match read_text(entries, ItemField::Name.persisted()) {
            Ok(v) => v,
            Err(e) => {
                return Err(e);
            },
        };
        let owner_id = match read_text(entries, ItemField::OwnerId.persisted()) {
            Ok(v) => v,
            Err(e) => {
                return Err(e);
            },
        };
        let version = match read_number(entries, ItemField::Version.persisted()) {
            Ok(v) => v,
            Err(e) => {
                return Err(e);
            },
        };
        let content = match read_list(entries, ItemField::Content.persisted()) {
            Ok(v) => v,
            Err(e) => {
                return Err(e);
            },
        };
        let image_url = match read_text(entries, ItemField::ImageUrl.persisted()) {
            Ok(v) => v,
            Err(e) => {
                return Err(e);
            },
        };
        let creation_date = match read_text(entries, ItemField::CreationDate.persisted()) {
            Ok(v) => v,
            Err(e) => {
                return Err(e);
            },
        };
        let edition_date = match read_text(entries, ItemField::EditionDate.persisted()) {
            Ok(v) => v,
            Err(e) => {
                return Err(e);
            },
        };
        let tag_ids = match read_list(entries, ItemField::TagIds.persisted()) {
            Ok(v) => v,
            Err(e) => {
                return Err(e);
            },
        };
        let follower_ids = match read_list(entries, ItemField::FollowerIds.persisted()) {
            Ok(v) => v,
            Err(e) => {
                return Err(e);
            },
        };
        let is_visible = match read_flag(entries, ItemField::IsVisible.persisted()) {
            Ok(v) => v,
            Err(e) => {
                return Err(e);
            },
        };
        let is_archived = match read_flag(entries, ItemField::IsArchived.persisted()) {
            Ok(v) => v,
            Err(e) => {
                return Err(e);
            },
        };
        Ok(
            Item {
                id,
                cid,
                name,
                owner_id,
                version,
                content,
                image_url,
                creation_date,
                edition_date,
                tag_ids,
                follower_ids,
                is_visible,
                is_archived,
            },
        )
    }
}

} // verus!
