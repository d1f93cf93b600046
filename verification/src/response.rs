//! The response unwrapper: from what the store answers to one submitted
//! statement, to the value, the record or the records that were asked for.
//!
//! The store answers with one outcome per statement. Every statement of
//! this layer is submitted alone, so the first outcome is the one that
//! counts. An empty answer, or an empty sequence where a record was
//! expected, is an error and ends the request.

use vstd::prelude::*;
use crate::codec::{decoded, Decodable};
use crate::error::{AccessError, Failure};
use crate::value::{documents, Document, GenericValue};

verus! {

/// The outcome of one statement: its value, or the store's failure.
pub type StatementOutcome = Result<GenericValue, surrealdb::Error>;

/// What the store answers to a submission: the outcomes of its statements,
/// in order.
pub type QueryResponse = Vec<StatementOutcome>;

/// The value of the first statement, as a model.
pub open spec fn first_value(response: Seq<StatementOutcome>) -> Result<Document, Failure> {
    if response.len() == 0 {
        Err(Failure::MissingResponse)
    } else {
        match response[0] {
            Ok(value) => Ok(value@),
            Err(cause) => Err(Failure::Store(cause)),
        }
    }
}

/// The first element of a sequence-shaped value.
pub open spec fn first_of(value: Document) -> Result<Document, Failure> {
    match value {
        Document::List(items) => if items.len() == 0 {
            Err(Failure::MissingRecord)
        } else {
            Ok(items[0])
        },
        _ => Err(Failure::ValueNotOfType("Array"@)),
    }
}

/// The elements of a sequence-shaped value.
pub open spec fn all_of(value: Document) -> Result<Seq<Document>, Failure> {
    match value {
        Document::List(items) => Ok(items),
        _ => Err(Failure::ValueNotOfType("Array"@)),
    }
}

/// The outcome of the submitted statement: its value, `MissingResponse`
/// where the store answered with no outcome, the store's failure where the
/// statement failed.
pub fn first_statement(response: QueryResponse) -> (r: Result<GenericValue, AccessError>)
    ensures
        response@.len() == 0 ==> r matches Err(AccessError::MissingResponse),
        response@.len() > 0 ==> match response@[0] {
            Ok(value) => r matches Ok(v) && v == value,
            Err(cause) => r matches Err(AccessError::Surreal(c)) && c == cause,
        },
        match r {
            Ok(v) => first_value(response@) == Ok::<Document, Failure>(v@),
            Err(e) => first_value(response@) == Err::<Document, Failure>(e@),
        },
{
    let mut outcomes = response;
    if outcomes.len() == 0 {
        return Err(AccessError::MissingResponse);
    }
    match outcomes.swap_remove(0) {
        Ok(value) => Ok(value),
        Err(cause) => Err(AccessError::Surreal(cause)),
    }
}

/// The first record of a sequence of records: `MissingRecord` where the
/// sequence is empty, a type mismatch where the value is no sequence.
pub fn first_record(value: GenericValue) -> (r: Result<GenericValue, AccessError>)
    ensures
        match value {
            GenericValue::Array(items) => if items@.len() == 0 {
                r matches Err(AccessError::MissingRecord)
            } else {
                r matches Ok(v) && v == items@[0]
            },
            _ => r matches Err(AccessError::XValueNotOfType(shape)) && shape@ == "Array"@,
        },
        match r {
            Ok(v) => first_of(value@) == Ok::<Document, Failure>(v@),
            Err(e) => first_of(value@) == Err::<Document, Failure>(e@),
        },
{
    match value {
        GenericValue::Array(items) => {
            let mut records = items;
            if records.len() == 0 {
                Err(AccessError::MissingRecord)
            } else {
                Ok(records.swap_remove(0))
            }
        },
        _ => Err(AccessError::XValueNotOfType("Array")),
    }
}

/// All the records of a sequence of records, unchanged and in order; a type
/// mismatch where the value is no sequence. An empty sequence is a valid
/// answer.
pub fn all_records(value: GenericValue) -> (r: Result<Vec<GenericValue>, AccessError>)
    ensures
        match value {
            GenericValue::Array(items) => r matches Ok(v) && v == items,
            _ => r matches Err(AccessError::XValueNotOfType(shape)) && shape@ == "Array"@,
        },
        match r {
            Ok(v) => all_of(value@) == Ok::<Seq<Document>, Failure>(documents(v@)),
            Err(e) => all_of(value@) == Err::<Seq<Document>, Failure>(e@),
        },
{
    match value {
        GenericValue::Array(items) => Ok(items),
        _ => Err(AccessError::XValueNotOfType("Array")),
    }
}

/// The models of the records of a sequence, in order.
pub open spec fn models<E: View>(records: Seq<E>) -> Seq<E::V> {
    Seq::new(records.len(), |i: int| records[i]@)
}

/// What a sequence of documents reads as: the records, in order, or what
/// is wrong with the first document that does not read as a record.
pub open spec fn read_each<E: Decodable>(documents: Seq<Document>) -> Result<Seq<E::V>, Failure>
    decreases documents.len(),
{
    if documents.len() == 0 {
        Ok(Seq::empty())
    } else {
        match read_each::<E>(documents.drop_last()) {
            Err(failure) => Err(failure),
            Ok(front) => match E::read(documents.last()) {
                Ok(record) => Ok(front.push(record)),
                Err(failure) => Err(failure),
            },
        }
    }
}

/// What an answer means where one record was asked for.
pub open spec fn record_reply<E: Decodable>(response: Seq<StatementOutcome>) -> Result<
    E::V,
    Failure,
> {
    match first_value(response) {
        Err(failure) => Err(failure),
        Ok(value) => match first_of(value) {
            Err(failure) => Err(failure),
            Ok(document) => E::read(document),
        },
    }
}

/// What an answer means where any number of records was asked for.
pub open spec fn records_reply<E: Decodable>(response: Seq<StatementOutcome>) -> Result<
    Seq<E::V>,
    Failure,
> {
    match first_value(response) {
        Err(failure) => Err(failure),
        Ok(value) => match all_of(value) {
            Err(failure) => Err(failure),
            Ok(documents) => read_each::<E>(documents),
        },
    }
}

/// What an answer means where nothing but success was asked for.
pub open spec fn done_reply(response: Seq<StatementOutcome>) -> Result<(), Failure> {
    match first_value(response) {
        Err(failure) => Err(failure),
        Ok(_) => Ok(()),
    }
}

/// Reads each of `values` as a record. The first value that does not read
/// as one ends the reading with its error.
pub fn decode_each<E: Decodable>(values: &Vec<GenericValue>) -> (r: Result<Vec<E>, AccessError>)
    ensures
        match r {
            Ok(records) => read_each::<E>(documents(values@)) == Ok::<Seq<E::V>, Failure>(
                models(records@),
            ),
            Err(e) => read_each::<E>(documents(values@)) == Err::<Seq<E::V>, Failure>(e@),
        },
{
    let mut out: Vec<E> = Vec::new();
    let mut i: usize = 0;
    assert(documents(values@).take(0) =~= Seq::<Document>::empty());
    assert(models(out@) =~= Seq::<E::V>::empty());
    while i < values.len()
        invariant
            i <= values.len(),
            read_each::<E>(documents(values@).take(i as int)) == Ok::<Seq<E::V>, Failure>(
                models(out@),
            ),
        decreases values.len() - i,
    {
        let ghost prefix = documents(values@).take(i + 1);
        assert(prefix.drop_last() =~= documents(values@).take(i as int));
        assert(prefix.last() == values@[i as int]@);
        match E::decode(&values[i]) {
            Ok(record) => {
                assert(models(out@.push(record)) =~= models(out@).push(record@));
                out.push(record);
            },
            Err(e) => {
                proof {
                    lemma_read_each_fails::<E>(documents(values@), i + 1);
                }
                return Err(e);
            },
        }
        i = i + 1;
    }
    assert(documents(values@).take(i as int) =~= documents(values@));
    Ok(out)
}

/// Where the reading of a prefix fails, the reading of the whole fails in
/// the same way.
pub proof fn lemma_read_each_fails<E: Decodable>(documents: Seq<Document>, n: int)
    requires
        0 <= n <= documents.len(),
        read_each::<E>(documents.take(n)) is Err,
    ensures
        read_each::<E>(documents) == read_each::<E>(documents.take(n)),
    decreases documents.len(),
{
    if n < documents.len() {
        let front = documents.drop_last();
        assert(front.take(n) =~= documents.take(n));
        lemma_read_each_fails::<E>(front, n);
    } else {
        assert(documents.take(n) =~= documents);
    }
}

/// The record that the store answered with.
pub fn one_record<E: Decodable>(response: QueryResponse) -> (r: Result<E, AccessError>)
    ensures
        decoded(r) == record_reply::<E>(response@),
{
    let value = match first_statement(response) {
        Ok(v) => v,
        Err(e) => {
            return Err(e);
        },
    };
    let record = match first_record(value) {
        Ok(v) => v,
        Err(e) => {
            return Err(e);
        },
    };
    E::decode(&record)
}

/// The records that the store answered with, in its order.
pub fn many_records<E: Decodable>(response: QueryResponse) -> (r: Result<Vec<E>, AccessError>)
    ensures
        match r {
            Ok(records) => records_reply::<E>(response@) == Ok::<Seq<E::V>, Failure>(
                models(records@),
            ),
            Err(e) => records_reply::<E>(response@) == Err::<Seq<E::V>, Failure>(e@),
        },
{
    let value = match first_statement(response) {
        Ok(v) => v,
        Err(e) => {
            return Err(e);
        },
    };
    let values = match all_records(value) {
        Ok(v) => v,
        Err(e) => {
            return Err(e);
        },
    };
    decode_each::<E>(&values)
}

/// Whether the store carried the statement out. What it returned is not
/// looked at.
pub fn done(response: QueryResponse) -> (r: Result<(), AccessError>)
    ensures
        match r {
            Ok(_) => done_reply(response@) == Ok::<(), Failure>(()),
            Err(e) => done_reply(response@) == Err::<(), Failure>(e@),
        },
{
    match first_statement(response) {
        Ok(_) => Ok(()),
        Err(e) => Err(e),
    }
}

} // verus!
