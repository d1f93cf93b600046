//! The user entity: its fields, its persisted names and its codec.

use vstd::prelude::*;
use crate::codec::{
    as_stored, flag_at, id_at, list_at, list_model, number_at, put, put_flag, put_list,
    put_number, put_text, read_flag, read_id, read_list, read_number, read_text, text_at,
    text_model, to_stored, with_flag, with_list, with_number, with_text, Creatable, Decodable,
    Patchable,
};
use crate::error::{AccessError, Failure};
use crate::value::{clone_values, documents, fields, Document, GenericValue};

verus! {

/// The fields of a user, as the record type names them.
#[derive(Clone, Copy, Debug, PartialEq, Eq)]
pub enum UserField {
    Cid,
    PublicKey,
    PrivateKey,
    Name,
    Version,
    Avatar,
    Email,
    CreationDate,
    OnlineState,
    FollowIds,
    IsVisible,
    IsInactive,
}

impl UserField {
    /// The key under which the store keeps the field.
    pub open spec fn persisted_name(self) -> Seq<char> {
        match self {
            UserField::Cid => "cid"@,
            UserField::PublicKey => "publicKey"@,
            UserField::PrivateKey => "privateKey"@,
            UserField::Name => "name"@,
            UserField::Version => "version"@,
            UserField::Avatar => "avatar"@,
            UserField::Email => "email"@,
            UserField::CreationDate => "creationDate"@,
            UserField::OnlineState => "onlineState"@,
            UserField::FollowIds => "followIds"@,
            UserField::IsVisible => "isVisible"@,
            UserField::IsInactive => "isInactive"@,
        }
    }

    /// The name of the field in the record type.
    pub open spec fn internal_name(self) -> Seq<char> {
        match self {
            UserField::Cid => "cid"@,
            UserField::PublicKey => "public_key"@,
            UserField::PrivateKey => "private_key"@,
            UserField::Name => "name"@,
            UserField::Version => "version"@,
            UserField::Avatar => "avatar"@,
            UserField::Email => "email"@,
            UserField::CreationDate => "creation_date"@,
            UserField::OnlineState => "online_state"@,
            UserField::FollowIds => "follow_ids"@,
            UserField::IsVisible => "is_visible"@,
            UserField::IsInactive => "is_inactive"@,
        }
    }

    /// The key under which the store keeps the field.
    pub fn persisted(self) -> (r: &'static str)
        ensures
            r@ == self.persisted_name(),
    {
        match self {
            UserField::Cid => "cid",
            UserField::PublicKey => "publicKey",
            UserField::PrivateKey => "privateKey",
            UserField::Name => "name",
            UserField::Version => "version",
            UserField::Avatar => "avatar",
            UserField::Email => "email",
            UserField::CreationDate => "creationDate",
            UserField::OnlineState => "onlineState",
            UserField::FollowIds => "followIds",
            UserField::IsVisible => "isVisible",
            UserField::IsInactive => "isInactive",
        }
    }

    /// The name of the field in the record type.
    pub fn internal(self) -> (r: &'static str)
        ensures
            r@ == self.internal_name(),
    {
        match self {
            UserField::Cid => "cid",
            UserField::PublicKey => "public_key",
            UserField::PrivateKey => "private_key",
            UserField::Name => "name",
            UserField::Version => "version",
            UserField::Avatar => "avatar",
            UserField::Email => "email",
            UserField::CreationDate => "creation_date",
            UserField::OnlineState => "online_state",
            UserField::FollowIds => "follow_ids",
            UserField::IsVisible => "is_visible",
            UserField::IsInactive => "is_inactive",
        }
    }
}

/// A user. `id` is absent until the store has assigned one.
#[derive(Clone, Debug, PartialEq, Eq)]
pub struct User {
    pub id: Option<String>,
    pub cid: String,
    pub public_key: String,
    pub private_key: String,
    pub name: String,
    pub version: u64,
    pub avatar: String,
    pub email: String,
    pub creation_date: String,
    pub online_state: String,
    pub follow_ids: Vec<GenericValue>,
    pub is_visible: bool,
    pub is_inactive: bool,
}

/// The mathematical model of a [`User`].
pub struct UserModel {
    pub id: Option<Seq<char>>,
    pub cid: Seq<char>,
    pub public_key: Seq<char>,
    pub private_key: Seq<char>,
    pub name: Seq<char>,
    pub version: u64,
    pub avatar: Seq<char>,
    pub email: Seq<char>,
    pub creation_date: Seq<char>,
    pub online_state: Seq<char>,
    pub follow_ids: Seq<Document>,
    pub is_visible: bool,
    pub is_inactive: bool,
}

impl View for User {
    type V = UserModel;

    open spec fn view(&self) -> UserModel {
        UserModel {
            id: text_model(self.id),
            cid: self.cid@,
            public_key: self.public_key@,
            private_key: self.private_key@,
            name: self.name@,
            version: self.version,
            avatar: self.avatar@,
            email: self.email@,
            creation_date: self.creation_date@,
            online_state: self.online_state@,
            follow_ids: documents(self.follow_ids@),
            is_visible: self.is_visible,
            is_inactive: self.is_inactive,
        }
    }
}

/// The mapping that stands for a user: every field under its persisted
/// name, and the identifier under `id` where the user has one.
pub open spec fn user_fields(user: UserModel) -> Map<Seq<char>, Document> {
    let m = with_text(Map::empty(), "id"@, user.id);
    let m = m.insert(UserField::Cid.persisted_name(), Document::Text(user.cid));
    let m = m.insert(UserField::PublicKey.persisted_name(), Document::Text(user.public_key));
    let m = m.insert(UserField::PrivateKey.persisted_name(), Document::Text(user.private_key));
    let m = m.insert(UserField::Name.persisted_name(), Document::Text(user.name));
    let m = m.insert(
        UserField::Version.persisted_name(),
        Document::Number(as_stored(user.version)),
    );
    let m = m.insert(UserField::Avatar.persisted_name(), Document::Text(user.avatar));
    let m = m.insert(UserField::Email.persisted_name(), Document::Text(user.email));
    let m = m.insert(UserField::CreationDate.persisted_name(), Document::Text(user.creation_date));
    let m = m.insert(UserField::OnlineState.persisted_name(), Document::Text(user.online_state));
    let m = m.insert(UserField::FollowIds.persisted_name(), Document::List(user.follow_ids));
    let m = m.insert(UserField::IsVisible.persisted_name(), Document::Bool(user.is_visible));
    m.insert(UserField::IsInactive.persisted_name(), Document::Bool(user.is_inactive))
}

impl Creatable for User {
    open spec fn created_document(&self) -> Document {
        Document::Record(user_fields(self@))
    }

    fn encode_create(&self) -> (r: GenericValue) {
        let mut entries: Vec<(String, GenericValue)> = Vec::new();
        assert(fields(entries@) =~= Map::empty());
        put_text(&mut entries, "id", &self.id);
        put(&mut entries, UserField::Cid.persisted(), GenericValue::String(self.cid.clone()));
        put(
            &mut entries,
            UserField::PublicKey.persisted(),
            GenericValue::String(self.public_key.clone()),
        );
        put(
            &mut entries,
            UserField::PrivateKey.persisted(),
            GenericValue::String(self.private_key.clone()),
        );
        put(&mut entries, UserField::Name.persisted(), GenericValue::String(self.name.clone()));
        put(
            &mut entries,
            UserField::Version.persisted(),
            GenericValue::Number(to_stored(self.version)),
        );
        put(&mut entries, UserField::Avatar.persisted(), GenericValue::String(self.avatar.clone()));
        put(&mut entries, UserField::Email.persisted(), GenericValue::String(self.email.clone()));
        put(
            &mut entries,
            UserField::CreationDate.persisted(),
            GenericValue::String(self.creation_date.clone()),
        );
        put(
            &mut entries,
            UserField::OnlineState.persisted(),
            GenericValue::String(self.online_state.clone()),
        );
        put(
            &mut entries,
            UserField::FollowIds.persisted(),
            GenericValue::Array(clone_values(&self.follow_ids)),
        );
        put(&mut entries, UserField::IsVisible.persisted(), GenericValue::Bool(self.is_visible));
        put(&mut entries, UserField::IsInactive.persisted(), GenericValue::Bool(self.is_inactive));
        GenericValue::Object(entries)
    }
}

/// The fields to overwrite in a stored user. An absent field is left as it
/// is; a present one is overwritten, also with `false` or an empty sequence.
#[derive(Clone, Debug, PartialEq, Eq)]
pub struct UserPatch {
    pub cid: Option<String>,
    pub public_key: Option<String>,
    pub private_key: Option<String>,
    pub name: Option<String>,
    pub version: Option<u64>,
    pub avatar: Option<String>,
    pub email: Option<String>,
    pub creation_date: Option<String>,
    pub online_state: Option<String>,
    pub follow_ids: Option<Vec<GenericValue>>,
    pub is_visible: Option<bool>,
    pub is_inactive: Option<bool>,
}

/// The mathematical model of a [`UserPatch`].
pub struct UserPatchModel {
    pub cid: Option<Seq<char>>,
    pub public_key: Option<Seq<char>>,
    pub private_key: Option<Seq<char>>,
    pub name: Option<Seq<char>>,
    pub version: Option<u64>,
    pub avatar: Option<Seq<char>>,
    pub email: Option<Seq<char>>,
    pub creation_date: Option<Seq<char>>,
    pub online_state: Option<Seq<char>>,
    pub follow_ids: Option<Seq<Document>>,
    pub is_visible: Option<bool>,
    pub is_inactive: Option<bool>,
}

impl View for UserPatch {
    type V = UserPatchModel;

    open spec fn view(&self) -> UserPatchModel {
        UserPatchModel {
            cid: text_model(self.cid),
            public_key: text_model(self.public_key),
            private_key: text_model(self.private_key),
            name: text_model(self.name),
            version: self.version,
            avatar: text_model(self.avatar),
            email: text_model(self.email),
            creation_date: text_model(self.creation_date),
            online_state: text_model(self.online_state),
            follow_ids: list_model(self.follow_ids),
            is_visible: self.is_visible,
            is_inactive: self.is_inactive,
        }
    }
}

impl UserPatchModel {
    /// Whether the patch sets the field.
    pub open spec fn sets(self, field: UserField) -> bool {
        match field {
            UserField::Cid => self.cid is Some,
            UserField::PublicKey => self.public_key is Some,
            UserField::PrivateKey => self.private_key is Some,
            UserField::Name => self.name is Some,
            UserField::Version => self.version is Some,
            UserField::Avatar => self.avatar is Some,
            UserField::Email => self.email is Some,
            UserField::CreationDate => self.creation_date is Some,
            UserField::OnlineState => self.online_state is Some,
            UserField::FollowIds => self.follow_ids is Some,
            UserField::IsVisible => self.is_visible is Some,
            UserField::IsInactive => self.is_inactive is Some,
        }
    }
}

/// The mapping that stands for a user patch: each present field under its
/// persisted name.
pub open spec fn user_patch_fields(patch: UserPatchModel) -> Map<Seq<char>, Document> {
    let m = with_text(Map::empty(), UserField::Cid.persisted_name(), patch.cid);
    let m = with_text(m, UserField::PublicKey.persisted_name(), patch.public_key);
    let m = with_text(m, UserField::PrivateKey.persisted_name(), patch.private_key);
    let m = with_text(m, UserField::Name.persisted_name(), patch.name);
    let m = with_number(m, UserField::Version.persisted_name(), patch.version);
    let m = with_text(m, UserField::Avatar.persisted_name(), patch.avatar);
    let m = with_text(m, UserField::Email.persisted_name(), patch.email);
    let m = with_text(m, UserField::CreationDate.persisted_name(), patch.creation_date);
    let m = with_text(m, UserField::OnlineState.persisted_name(), patch.online_state);
    let m = with_list(m, UserField::FollowIds.persisted_name(), patch.follow_ids);
    let m = with_flag(m, UserField::IsVisible.persisted_name(), patch.is_visible);
    with_flag(m, UserField::IsInactive.persisted_name(), patch.is_inactive)
}

impl Patchable for UserPatch {
    open spec fn patch_document(&self) -> Document {
        Document::Record(user_patch_fields(self@))
    }

    fn encode_patch(&self) -> (r: GenericValue) {
        let mut entries: Vec<(String, GenericValue)> = Vec::new();
        assert(fields(entries@) =~= Map::empty());
        put_text(&mut entries, UserField::Cid.persisted(), &self.cid);
        put_text(&mut entries, UserField::PublicKey.persisted(), &self.public_key);
        put_text(&mut entries, UserField::PrivateKey.persisted(), &self.private_key);
        put_text(&mut entries, UserField::Name.persisted(), &self.name);
        put_number(&mut entries, UserField::Version.persisted(), &self.version);
        put_text(&mut entries, UserField::Avatar.persisted(), &self.avatar);
        put_text(&mut entries, UserField::Email.persisted(), &self.email);
        put_text(&mut entries, UserField::CreationDate.persisted(), &self.creation_date);
        put_text(&mut entries, UserField::OnlineState.persisted(), &self.online_state);
        put_list(&mut entries, UserField::FollowIds.persisted(), &self.follow_ids);
        put_flag(&mut entries, UserField::IsVisible.persisted(), &self.is_visible);
        put_flag(&mut entries, UserField::IsInactive.persisted(), &self.is_inactive);
        GenericValue::Object(entries)
    }
}

/// What a document reads as, as a user: the user whose fields the document
/// holds under their persisted names, or the first field, in the order of
/// the record type, that is missing or has another shape.
pub open spec fn read_user(document: Document) -> Result<UserModel, Failure> {
    match document {
        Document::Record(record) => {
            let id = id_at(record);
            let cid = text_at(record, UserField::Cid.persisted_name());
            let public_key = text_at(record, UserField::PublicKey.persisted_name());
            let private_key = text_at(record, UserField::PrivateKey.persisted_name());
            let name = text_at(record, UserField::Name.persisted_name());
            let version = number_at(record, UserField::Version.persisted_name());
            let avatar = text_at(record, UserField::Avatar.persisted_name());
            let email = text_at(record, UserField::Email.persisted_name());
            let creation_date = text_at(record, UserField::CreationDate.persisted_name());
            let online_state = text_at(record, UserField::OnlineState.persisted_name());
            let follow_ids = list_at(record, UserField::FollowIds.persisted_name());
            let is_visible = flag_at(record, UserField::IsVisible.persisted_name());
            let is_inactive = flag_at(record, UserField::IsInactive.persisted_name());
            if id is Err {
                Err(id->Err_0)
            } else if cid is Err {
                Err(cid->Err_0)
            } else if public_key is Err {
                Err(public_key->Err_0)
            } else if private_key is Err {
                Err(private_key->Err_0)
            } else if name is Err {
                Err(name->Err_0)
            } else if version is Err {
                Err(version->Err_0)
            } else if avatar is Err {
                Err(avatar->Err_0)
            } else if email is Err {
                Err(email->Err_0)
            } else if creation_date is Err {
                Err(creation_date->Err_0)
            } else if online_state is Err {
                Err(online_state->Err_0)
            } else if follow_ids is Err {
                Err(follow_ids->Err_0)
            } else if is_visible is Err {
                Err(is_visible->Err_0)
            } else if is_inactive is Err {
                Err(is_inactive->Err_0)
            } else {
                Ok(
                    UserModel {
                        id: id->Ok_0,
                        cid: cid->Ok_0,
                        public_key: public_key->Ok_0,
                        private_key: private_key->Ok_0,
                        name: name->Ok_0,
                        version: version->Ok_0,
                        avatar: avatar->Ok_0,
                        email: email->Ok_0,
                        creation_date: creation_date->Ok_0,
                        online_state: online_state->Ok_0,
                        follow_ids: follow_ids->Ok_0,
                        is_visible: is_visible->Ok_0,
                        is_inactive: is_inactive->Ok_0,
                    },
                )
            }
        },
        _ => Err(Failure::ValueNotOfType("Object"@)),
    }
}

impl Decodable for User {
    open spec fn read(document: Document) -> Result<UserModel, Failure> {
        read_user(document)
    }

    fn decode(value: &GenericValue) -> (r: Result<User, AccessError>) {
        let entries = match value {
            GenericValue::Object(entries) => entries,
            _ => {
                return Err(AccessError::XValueNotOfType("Object"));
            },
        };
        let id = match read_id(entries) {
            Ok(v) => v,
            Err(e) => {
                return Err(e);
            },
        };
        let cid = match read_text(entries, UserField::Cid.persisted()) {
            Ok(v) => v,
            Err(e) => {
                return Err(e);
            },
        };
        let public_key = match read_text(entries, UserField::PublicKey.persisted()) {
            Ok(v) => v,
            Err(e) => {
                return Err(e);
            },
        };
        let private_key = match read_text(entries, UserField::PrivateKey.persisted()) {
            Ok(v) => v,
            Err(e) => {
                return Err(e);
            },
        };
        let name = match read_text(entries, UserField::Name.persisted()) {
            Ok(v) => v,
            Err(e) => {
                return Err(e);
            },
        };
        let version = match read_number(entries, UserField::Version.persisted()) {
            Ok(v) => v,
            Err(e) => {
                return Err(e);
            },
        };
        let avatar = match read_text(entries, UserField::Avatar.persisted()) {
            Ok(v) => v,
            Err(e) => {
                return Err(e);
            },
        };
        let email = match read_text(entries, UserField::Email.persisted()) {
            Ok(v) => v,
            Err(e) => {
                return Err(e);
            },
        };
        let creation_date = match read_text(entries, UserField::CreationDate.persisted()) {
            Ok(v) => v,
            Err(e) => {
                return Err(e);
            },
        };
        let online_state = match read_text(entries, UserField::OnlineState.persisted()) {
            Ok(v) => v,
            Err(e) => {
                return Err(e);
            },
        };
        let follow_ids = match read_list(entries, UserField::FollowIds.persisted()) {
            Ok(v) => v,
            Err(e) => {
                return Err(e);
            },
        };
        let is_visible = match read_flag(entries, UserField::IsVisible.persisted()) {
            Ok(v) => v,
            Err(e) => {
                return Err(e);
            },
        };
        let is_inactive = match read_flag(entries, UserField::IsInactive.persisted()) {
            Ok(v) => v,
            Err(e) => {
                return Err(e);
            },
        };
        Ok(
            User {
                id,
                cid,
                public_key,
                private_key,
                name,
                version,
                avatar,
                email,
                creation_date,
                online_state,
                follow_ids,
                is_visible,
                is_inactive,
            },
        )
    }
}

} // verus!
