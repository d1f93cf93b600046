//! The value codec: what every entity type provides to be written to and
//! read from the store, and the field readers the entity types share.

use vstd::prelude::*;
use vstd::string::*;
use crate::error::{AccessError, Failure};
use crate::value::{
    clone_values, documents, fields, find, lemma_fields_push, Document, GenericValue,
};

verus! {

/// A record that can be written to the store as a whole.
pub trait Creatable {
    /// The document that stands for the record.
    spec fn created_document(&self) -> Document;

    /// Writes every field of the record under its persisted name.
    fn encode_create(&self) -> (r: GenericValue)
        ensures
            r@ == self.created_document(),
    ;
}

/// A partial record: the fields to overwrite in a stored one.
pub trait Patchable {
    /// The document that holds the fields that are present, and nothing else.
    spec fn patch_document(&self) -> Document;

    /// Writes the present fields under their persisted names. An absent field
    /// contributes no key.
    fn encode_patch(&self) -> (r: GenericValue)
        ensures
            r@ == self.patch_document(),
    ;
}

/// A record that can be read back from what the store returns.
pub trait Decodable: Sized + View {
    /// What a document reads as: the record, or the first thing wrong with
    /// the document.
    spec fn read(document: Document) -> Result<Self::V, Failure>;

    /// Reads a record from a stored document.
    fn decode(value: &GenericValue) -> (r: Result<Self, AccessError>)
        ensures
            decoded(r) == Self::read(value@),
    ;
}

/// The model of the outcome of reading one record.
pub open spec fn decoded<E: View>(r: Result<E, AccessError>) -> Result<E::V, Failure> {
    match r {
        Ok(entity) => Ok(entity@),
        Err(e) => Err(e@),
    }
}

/// The store keeps numbers as signed 64-bit integers. An unsigned number is
/// stored as the signed one with the same 64 bits.
pub open spec fn as_stored(n: u64) -> int {
    if n <= i64::MAX {
        n as int
    } else {
        n - 0x1_0000_0000_0000_0000
    }
}

/// The unsigned number that a stored number stands for.
pub open spec fn from_stored(n: int) -> u64 {
    if 0 <= n <= i64::MAX {
        n as u64
    } else if i64::MIN <= n < 0 {
        (n + 0x1_0000_0000_0000_0000) as u64
    } else {
        0
    }
}

/// The signed number with the bits of `n`.
pub fn to_stored(n: u64) -> (r: i64)
    ensures
        r == as_stored(n),
{
    if n <= 0x7fff_ffff_ffff_ffff {
        n as i64
    } else {
        let low: i64 = (n - 0x8000_0000_0000_0000) as i64;
        low + i64::MIN
    }
}

/// The unsigned number with the bits of `n`.
pub fn to_unsigned(n: i64) -> (r: u64)
    ensures
        r == from_stored(n as int),
{
    if n >= 0 {
        n as u64
    } else {
        let low: u64 = (n - i64::MIN) as u64;
        low + 0x8000_0000_0000_0000
    }
}

/// The model of an optional text.
pub open spec fn text_model(text: Option<String>) -> Option<Seq<char>> {
    match text {
        Some(t) => Some(t@),
        None => None,
    }
}

/// The model of an optional sequence.
pub open spec fn list_model(list: Option<Vec<GenericValue>>) -> Option<Seq<Document>> {
    match list {
        Some(l) => Some(documents(l@)),
        None => None,
    }
}

/// `record` with the text under `key`, where there is one.
pub open spec fn with_text(
    record: Map<Seq<char>, Document>,
    key: Seq<char>,
    text: Option<Seq<char>>,
) -> Map<Seq<char>, Document> {
    match text {
        Some(t) => record.insert(key, Document::Text(t)),
        None => record,
    }
}

/// `record` with the number under `key`, where there is one.
pub open spec fn with_number(
    record: Map<Seq<char>, Document>,
    key: Seq<char>,
    number: Option<u64>,
) -> Map<Seq<char>, Document> {
    match number {
        Some(n) => record.insert(key, Document::Number(as_stored(n))),
        None => record,
    }
}

/// `record` with the boolean under `key`, where there is one.
pub open spec fn with_flag(
    record: Map<Seq<char>, Document>,
    key: Seq<char>,
    flag: Option<bool>,
) -> Map<Seq<char>, Document> {
    match flag {
        Some(b) => record.insert(key, Document::Bool(b)),
        None => record,
    }
}

/// `record` with the sequence under `key`, where there is one.
pub open spec fn with_list(
    record: Map<Seq<char>, Document>,
    key: Seq<char>,
    list: Option<Seq<Document>>,
) -> Map<Seq<char>, Document> {
    match list {
        Some(items) => record.insert(key, Document::List(items)),
        None => record,
    }
}

/// Adds one entry to a record under construction.
pub fn put(entries: &mut Vec<(String, GenericValue)>, key: &str, value: GenericValue)
    ensures
        fields(final(entries)@) == fields(old(entries)@).insert(key@, value@),
{
    let name = String::from_str(key);
    proof {
        lemma_fields_push(entries@, (name, value));
    }
    entries.push((name, value));
}

/// Adds a text under `key` where there is one.
pub fn put_text(entries: &mut Vec<(String, GenericValue)>, key: &str, text: &Option<String>)
    ensures
        fields(final(entries)@) == with_text(fields(old(entries)@), key@, text_model(*text)),
{
    match text {
        Some(t) => put(entries, key, GenericValue::String(t.clone())),
        None => {},
    }
}

/// Adds a number under `key` where there is one.
pub fn put_number(entries: &mut Vec<(String, GenericValue)>, key: &str, number: &Option<u64>)
    ensures
        fields(final(entries)@) == with_number(fields(old(entries)@), key@, *number),
{
    match number {
        Some(n) => put(entries, key, GenericValue::Number(to_stored(*n))),
        None => {},
    }
}

/// Adds a boolean under `key` where there is one.
pub fn put_flag(entries: &mut Vec<(String, GenericValue)>, key: &str, flag: &Option<bool>)
    ensures
        fields(final(entries)@) == with_flag(fields(old(entries)@), key@, *flag),
{
    match flag {
        Some(b) => put(entries, key, GenericValue::Bool(*b)),
        None => {},
    }
}

/// Adds a sequence under `key` where there is one.
pub fn put_list(
    entries: &mut Vec<(String, GenericValue)>,
    key: &str,
    list: &Option<Vec<GenericValue>>,
)
    ensures
        fields(final(entries)@) == with_list(fields(old(entries)@), key@, list_model(*list)),
{
    match list {
        Some(items) => put(entries, key, GenericValue::Array(clone_values(items))),
        None => {},
    }
}

/// The text under `key`.
pub open spec fn text_at(record: Map<Seq<char>, Document>, key: Seq<char>) -> Result<
    Seq<char>,
    Failure,
> {
    if !record.contains_key(key) {
        Err(Failure::PropertyNotFound(key))
    } else {
        match record[key] {
            Document::Text(text) => Ok(text),
            _ => Err(Failure::ValueNotOfType("String"@)),
        }
    }
}

/// The unsigned number under `key`.
pub open spec fn number_at(record: Map<Seq<char>, Document>, key: Seq<char>) -> Result<
    u64,
    Failure,
> {
    if !record.contains_key(key) {
        Err(Failure::PropertyNotFound(key))
    } else {
        match record[key] {
            Document::Number(n) => Ok(from_stored(n)),
            _ => Err(Failure::ValueNotOfType("Number"@)),
        }
    }
}

/// The boolean under `key`.
pub open spec fn flag_at(record: Map<Seq<char>, Document>, key: Seq<char>) -> Result<
    bool,
    Failure,
> {
    if !record.contains_key(key) {
        Err(Failure::PropertyNotFound(key))
    } else {
        match record[key] {
            Document::Bool(b) => Ok(b),
            _ => Err(Failure::ValueNotOfType("Bool"@)),
        }
    }
}

/// The sequence under `key`.
pub open spec fn list_at(record: Map<Seq<char>, Document>, key: Seq<char>) -> Result<
    Seq<Document>,
    Failure,
> {
    if !record.contains_key(key) {
        Err(Failure::PropertyNotFound(key))
    } else {
        match record[key] {
            Document::List(items) => Ok(items),
            _ => Err(Failure::ValueNotOfType("Array"@)),
        }
    }
}

/// The identifier of a record: absent before the record is stored, and
/// afterwards either a text or an identifier value under `id`.
pub open spec fn id_at(record: Map<Seq<char>, Document>) -> Result<Option<Seq<char>>, Failure> {
    if !record.contains_key("id"@) {
        Ok(None)
    } else {
        match record["id"@] {
            Document::Text(text) => Ok(Some(text)),
            Document::Identifier(text) => Ok(Some(text)),
            _ => Err(Failure::ValueNotOfType("String"@)),
        }
    }
}

/// Reads the text field `key` of a record.
pub fn read_text(entries: &Vec<(String, GenericValue)>, key: &'static str) -> (r: Result<
    String,
    AccessError,
>)
    ensures
        match r {
            Ok(text) => text_at(fields(entries@), key@) == Ok::<Seq<char>, Failure>(text@),
            Err(e) => text_at(fields(entries@), key@) == Err::<Seq<char>, Failure>(e@),
        },
{
    match find(entries, key) {
        None => Err(AccessError::XPropertyNotFound(String::from_str(key))),
        Some(GenericValue::String(text)) => Ok(text.clone()),
        Some(_) => Err(AccessError::XValueNotOfType("String")),
    }
}

/// Reads the number field `key` of a record.
pub fn read_number(entries: &Vec<(String, GenericValue)>, key: &'static str) -> (r: Result<
    u64,
    AccessError,
>)
    ensures
        match r {
            Ok(n) => number_at(fields(entries@), key@) == Ok::<u64, Failure>(n),
            Err(e) => number_at(fields(entries@), key@) == Err::<u64, Failure>(e@),
        },
{
    match find(entries, key) {
        None => Err(AccessError::XPropertyNotFound(String::from_str(key))),
        Some(GenericValue::Number(n)) => Ok(to_unsigned(*n)),
        Some(_) => Err(AccessError::XValueNotOfType("Number")),
    }
}

/// Reads the boolean field `key` of a record.
pub fn read_flag(entries: &Vec<(String, GenericValue)>, key: &'static str) -> (r: Result<
    bool,
    AccessError,
>)
    ensures
        match r {
            Ok(b) => flag_at(fields(entries@), key@) == Ok::<bool, Failure>(b),
            Err(e) => flag_at(fields(entries@), key@) == Err::<bool, Failure>(e@),
        },
{
    match find(entries, key) {
        None => Err(AccessError::XPropertyNotFound(String::from_str(key))),
        Some(GenericValue::Bool(b)) => Ok(*b),
        Some(_) => Err(AccessError::XValueNotOfType("Bool")),
    }
}

/// Reads the sequence field `key` of a record.
pub fn read_list(entries: &Vec<(String, GenericValue)>, key: &'static str) -> (r: Result<
    Vec<GenericValue>,
    AccessError,
>)
    ensures
        match r {
            Ok(items) => list_at(fields(entries@), key@) == Ok::<Seq<Document>, Failure>(
                documents(items@),
            ),
            Err(e) => list_at(fields(entries@), key@) == Err::<Seq<Document>, Failure>(e@),
        },
{
    match find(entries, key) {
        None => Err(AccessError::XPropertyNotFound(String::from_str(key))),
        Some(GenericValue::Array(items)) => Ok(clone_values(items)),
        Some(_) => Err(AccessError::XValueNotOfType("Array")),
    }
}

/// Reads the identifier of a record, if it has one.
pub fn read_id(entries: &Vec<(String, GenericValue)>) -> (r: Result<Option<String>, AccessError>)
    ensures
        match r {
            Ok(Some(text)) => id_at(fields(entries@)) == Ok::<Option<Seq<char>>, Failure>(
                Some(text@),
            ),
            Ok(None) => id_at(fields(entries@)) == Ok::<Option<Seq<char>>, Failure>(None),
            Err(e) => id_at(fields(entries@)) == Err::<Option<Seq<char>>, Failure>(e@),
        },
{
    match find(entries, "id") {
        None => Ok(None),
        Some(GenericValue::String(text)) => Ok(Some(text.clone())),
        Some(GenericValue::Identifier(text)) => Ok(Some(text.clone())),
        Some(_) => Err(AccessError::XValueNotOfType("String")),
    }
}

} // verus!
