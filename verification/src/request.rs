//! What a facade call asks of the store, and what is made of the answer.
//!
//! A call to a facade does not reach the store itself. It gives a request:
//! the statement to submit, with the flag to submit it with. Whoever holds
//! the connection submits it and hands the answer to `finish`, which gives
//! the result of the call.

use core::marker::PhantomData;
use vstd::prelude::*;
use crate::codec::{decoded, Creatable, Decodable, Patchable};
use crate::error::{AccessError, Failure};
use crate::identifier::{check_thing, is_plain, plain, qualified, qualify, readable};
use crate::response::{
    done, done_reply, many_records, models, one_record, record_reply, records_reply,
    QueryResponse,
};
use crate::statement::{
    create, create_statement, delete, delete_statement, fetch_all, fetch_all_statement,
    fetch_by_id, fetch_statement, merge_statement, merge_update, search, search_statement,
    Comparison, QueryStatement, StatementModel,
};
use crate::value::{documents, texts, Document, GenericValue};

verus! {

/// The mathematical model of a request: the statement to submit and the
/// flag to submit it with.
pub struct RequestModel {
    pub statement: StatementModel,
    pub mutating: bool,
}

/// The mathematical model of a [`DeleteRequest`].
pub struct DeleteModel {
    pub statement: StatementModel,
    pub mutating: bool,
    pub target: Seq<char>,
}

/// A request that is answered with one record of the type `E`.
pub struct RecordRequest<E> {
    statement: QueryStatement,
    mutating: bool,
    entity: PhantomData<E>,
}

/// A request that is answered with any number of records of the type `E`.
pub struct ListRequest<E> {
    statement: QueryStatement,
    mutating: bool,
    entity: PhantomData<E>,
}

/// A request to delete one record.
pub struct DeleteRequest {
    statement: QueryStatement,
    mutating: bool,
    target: String,
}

impl<E> View for RecordRequest<E> {
    type V = RequestModel;

    closed spec fn view(&self) -> RequestModel {
        RequestModel { statement: self.statement@, mutating: self.mutating }
    }
}

impl<E> View for ListRequest<E> {
    type V = RequestModel;

    closed spec fn view(&self) -> RequestModel {
        RequestModel { statement: self.statement@, mutating: self.mutating }
    }
}

impl View for DeleteRequest {
    type V = DeleteModel;

    closed spec fn view(&self) -> DeleteModel {
        DeleteModel { statement: self.statement@, mutating: self.mutating, target: self.target@ }
    }
}

impl<E: Decodable> RecordRequest<E> {
    /// A request for one record of the type `E`.
    pub fn new(statement: QueryStatement, mutating: bool) -> (r: Self)
        ensures
            r@ == (RequestModel { statement: statement@, mutating }),
    {
        RecordRequest { statement, mutating, entity: PhantomData }
    }

    /// The statement to submit.
    pub fn statement(&self) -> (r: &QueryStatement)
        ensures
            r@ == self@.statement,
    {
        &self.statement
    }

    /// The flag to submit the statement with. The store is given it as it is.
    pub fn mutating(&self) -> (r: bool)
        ensures
            r == self@.mutating,
    {
        self.mutating
    }

    /// The record that the store answered with: the first record of the
    /// first statement, read as an `E`.
    pub fn finish(self, response: QueryResponse) -> (r: Result<E, AccessError>)
        ensures
            decoded(r) == record_reply::<E>(response@),
    {
        one_record::<E>(response)
    }
}

impl<E: Decodable> ListRequest<E> {
    /// A request for records of the type `E`.
    pub fn new(statement: QueryStatement, mutating: bool) -> (r: Self)
        ensures
            r@ == (RequestModel { statement: statement@, mutating }),
    {
        ListRequest { statement, mutating, entity: PhantomData }
    }

    /// The statement to submit.
    pub fn statement(&self) -> (r: &QueryStatement)
        ensures
            r@ == self@.statement,
    {
        &self.statement
    }

    /// The flag to submit the statement with. The store is given it as it is.
    pub fn mutating(&self) -> (r: bool)
        ensures
            r == self@.mutating,
    {
        self.mutating
    }

    /// The records that the store answered with: all the records of the
    /// first statement, in the store's order, each read as an `E`. No record
    /// at all is a valid answer.
    pub fn finish(self, response: QueryResponse) -> (r: Result<Vec<E>, AccessError>)
        ensures
            match r {
                Ok(records) => records_reply::<E>(response@) == Ok::<Seq<E::V>, Failure>(
                    models(records@),
                ),
                Err(e) => records_reply::<E>(response@) == Err::<Seq<E::V>, Failure>(e@),
            },
    {
        many_records::<E>(response)
    }
}

impl DeleteRequest {
    /// A request to delete with `statement`, which answers with `target`.
    pub fn new(statement: QueryStatement, mutating: bool, target: String) -> (r: Self)
        ensures
            r@ == (DeleteModel { statement: statement@, mutating, target: target@ }),
    {
        DeleteRequest { statement, mutating, target }
    }

    /// The statement to submit.
    pub fn statement(&self) -> (r: &QueryStatement)
        ensures
            r@ == self@.statement,
    {
        &self.statement
    }

    /// The flag to submit the statement with. The store is given it as it is.
    pub fn mutating(&self) -> (r: bool)
        ensures
            r == self@.mutating,
    {
        self.mutating
    }

    /// The identifier that the caller asked to delete, as `table:local`.
    pub fn target(&self) -> (r: &str)
        ensures
            r@ == self@.target,
    {
        self.target.as_str()
    }

    /// The identifier that was deleted: the one the caller asked for, once
    /// the store has carried the statement out. What the store returned of
    /// the deleted record is not looked at.
    pub fn finish(self, response: QueryResponse) -> (r: Result<String, AccessError>)
        ensures
            match r {
                Ok(id) => done_reply(response@) == Ok::<(), Failure>(()) && id@ == self@.target,
                Err(e) => done_reply(response@) == Err::<(), Failure>(e@),
            },
    {
        match done(response) {
            Ok(_) => Ok(self.target),
            Err(e) => Err(e),
        }
    }
}

/// The text values `table:id` for the given local ids, in order.
pub open spec fn qualified_all(table: Seq<char>, ids: Seq<Seq<char>>) -> Seq<Document> {
    Seq::new(ids.len(), |i: int| Document::Text(qualified(table, ids[i])))
}

/// Prefixes each local id with the table name.
pub fn qualify_all(table: &str, ids: &Vec<&str>) -> (r: Vec<GenericValue>)
    ensures
        documents(r@) == qualified_all(table@, texts(ids@)),
{
    let mut out: Vec<GenericValue> = Vec::new();
    let mut i: usize = 0;
    while i < ids.len()
        invariant
            i <= ids.len(),
            out.len() == i,
            forall|j: int|
                0 <= j < i ==> (#[trigger] out[j])@ == Document::Text(qualified(table@, ids[j]@)),
        decreases ids.len() - i,
    {
        out.push(GenericValue::String(qualify(table, ids[i])));
        i = i + 1;
    }
    assert(documents(out@) =~= qualified_all(table@, texts(ids@)));
    out
}

/// The request that creates a record of the table `tb` from `data`.
///
/// What is written must be a mapping: for data that is written as anything
/// else the request is refused with a type mismatch.
pub fn create_request<E: Decodable, T: Creatable>(tb: &str, data: &T) -> (r: Result<
    RecordRequest<E>,
    AccessError,
>)
    ensures
        match r {
            Ok(request) => data.created_document() is Record && request@ == (RequestModel {
                statement: create_statement(tb@, data.created_document()),
                mutating: false,
            }),
            Err(e) => !(data.created_document() is Record) && e@ == Failure::ValueNotOfType(
                "Object"@,
            ),
        },
{
    let document = data.encode_create();
    match document {
        GenericValue::Object(_) => Ok(RecordRequest::new(create(tb, document), false)),
        _ => Err(AccessError::XValueNotOfType("Object")),
    }
}

/// The request that fetches the record with the identifier `asked`, where
/// the store's parser accepted it, and the parser's failure where it did
/// not.
pub fn fetch_checked<E: Decodable>(asked: String, checked: Result<(), surrealdb::Error>) -> (r:
    Result<RecordRequest<E>, AccessError>)
    ensures
        match checked {
            Ok(_) => r matches Ok(request) && request@ == (RequestModel {
                statement: fetch_statement(asked@),
                mutating: true,
            }),
            Err(cause) => r matches Err(AccessError::Surreal(c)) && c == cause,
        },
{
    match checked {
        Ok(_) => Ok(RecordRequest::new(fetch_by_id(asked), true)),
        Err(cause) => Err(AccessError::Surreal(cause)),
    }
}

/// The request that merges `patch` into the record with the identifier
/// `asked`, where the store's parser accepted it, and the parser's failure
/// where it did not.
pub fn update_checked<E: Decodable>(
    asked: String,
    checked: Result<(), surrealdb::Error>,
    patch: GenericValue,
) -> (r: Result<RecordRequest<E>, AccessError>)
    ensures
        match checked {
            Ok(_) => r matches Ok(request) && request@ == (RequestModel {
                statement: merge_statement(asked@, patch@),
                mutating: true,
            }),
            Err(cause) => r matches Err(AccessError::Surreal(c)) && c == cause,
        },
{
    match checked {
        Ok(_) => Ok(RecordRequest::new(merge_update(asked, patch), true)),
        Err(cause) => Err(AccessError::Surreal(cause)),
    }
}

/// The request that deletes the record with the identifier `asked`, where
/// the store's parser accepted it, and the parser's failure where it did
/// not. The request answers with `asked` in the end.
pub fn delete_checked(asked: String, checked: Result<(), surrealdb::Error>) -> (r: Result<
    DeleteRequest,
    AccessError,
>)
    ensures
        match checked {
            Ok(_) => r matches Ok(request) && request@ == (DeleteModel {
                statement: delete_statement(asked@),
                mutating: false,
                target: asked@,
            }),
            Err(cause) => r matches Err(AccessError::Surreal(c)) && c == cause,
        },
{
    match checked {
        Ok(_) => {
            let target = asked.clone();
            Ok(DeleteRequest::new(delete(asked), false, target))
        },
        Err(cause) => Err(AccessError::Surreal(cause)),
    }
}

/// What a request by identifier fails with, where the text is not one that
/// the store reads an identifier from: `InvalidIdentifier` for a text that
/// is not plain, the failure of the store's parser for one that the parser
/// rejects.
pub open spec fn refused(text: Seq<char>, e: AccessError) -> bool {
    if plain(text) {
        e is Surreal
    } else {
        e@ == Failure::InvalidIdentifier(text)
    }
}

/// The request that fetches the record `tid` of `table`: the record with
/// the identifier `table:tid`, where the store reads an identifier from
/// that text.
pub fn fetch_request<E: Decodable>(table: &'static str, tid: &str) -> (r: Result<
    RecordRequest<E>,
    AccessError,
>)
    ensures
        match r {
            Ok(request) => readable(qualified(table@, tid@)) && request@ == (RequestModel {
                statement: fetch_statement(qualified(table@, tid@)),
                mutating: true,
            }),
            Err(e) => !readable(qualified(table@, tid@)) && refused(qualified(table@, tid@), e),
        },
{
    let asked = qualify(table, tid);
    if !is_plain(asked.as_str()) {
        return Err(AccessError::InvalidIdentifier(asked));
    }
    let checked = check_thing(asked.as_str());
    fetch_checked::<E>(asked, checked)
}

/// The request that merges `data` into the record `tid` of `table`: the
/// record with the identifier `table:tid`, where the store reads an
/// identifier from that text.
pub fn update_request<E: Decodable, T: Patchable>(table: &'static str, tid: &str, data: &T) -> (r:
    Result<RecordRequest<E>, AccessError>)
    ensures
        match r {
            Ok(request) => readable(qualified(table@, tid@)) && request@ == (RequestModel {
                statement: merge_statement(qualified(table@, tid@), data.patch_document()),
                mutating: true,
            }),
            Err(e) => !readable(qualified(table@, tid@)) && refused(qualified(table@, tid@), e),
        },
{
    let asked = qualify(table, tid);
    if !is_plain(asked.as_str()) {
        return Err(AccessError::InvalidIdentifier(asked));
    }
    let checked = check_thing(asked.as_str());
    update_checked::<E>(asked, checked, data.encode_patch())
}

/// The request that deletes the record `tid` of `table`: the record with
/// the identifier `table:tid`, where the store reads an identifier from
/// that text.
pub fn delete_request(table: &'static str, tid: &str) -> (r: Result<DeleteRequest, AccessError>)
    ensures
        match r {
            Ok(request) => readable(qualified(table@, tid@)) && request@ == (DeleteModel {
                statement: delete_statement(qualified(table@, tid@)),
                mutating: false,
                target: qualified(table@, tid@),
            }),
            Err(e) => !readable(qualified(table@, tid@)) && refused(qualified(table@, tid@), e),
        },
{
    let asked = qualify(table, tid);
    if !is_plain(asked.as_str()) {
        return Err(AccessError::InvalidIdentifier(asked));
    }
    let checked = check_thing(asked.as_str());
    delete_checked(asked, checked)
}

/// The request that fetches every record of `table`.
pub fn list_request<E: Decodable>(table: &'static str) -> (r: ListRequest<E>)
    ensures
        r@ == (RequestModel { statement: fetch_all_statement(table@), mutating: true }),
{
    ListRequest::new(fetch_all(table), true)
}

/// The request that searches `table` by one comparison.
pub fn search_request<E: Decodable>(
    table: &'static str,
    column: &'static str,
    comparison: Comparison,
    placeholder: &'static str,
    value: GenericValue,
) -> (r: ListRequest<E>)
    ensures
        r@ == (RequestModel {
            statement: search_statement(table@, column@, comparison, placeholder@, value@),
            mutating: true,
        }),
{
    ListRequest::new(search(table, column, comparison, placeholder, value), true)
}

/// The request that searches `table` for the records whose `column` is
/// among the given local ids, each prefixed with the table name.
pub fn search_ids_request<E: Decodable>(
    table: &'static str,
    column: &'static str,
    ids: &Vec<&str>,
) -> (r: ListRequest<E>)
    ensures
        r@ == (RequestModel {
            statement: search_statement(
                table@,
                column@,
                Comparison::Inside,
                "ids"@,
                Document::List(qualified_all(table@, texts(ids@))),
            ),
            mutating: true,
        }),
{
    let values = GenericValue::Array(qualify_all(table, ids));
    search_request::<E>(table, column, Comparison::Inside, "ids", values)
}

} // verus!
