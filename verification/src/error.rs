//! The failures of the access layer.

use vstd::prelude::*;

verus! {

/// The store's own failure value. Nothing inside it is visible here; it is
/// handed to the caller as it came.
#[verifier::external_type_specification]
#[verifier::external_body]
pub struct ExStoreError(surrealdb::Error);

/// Why a request to the access layer failed. None of these is recovered
/// from or retried: each ends the request it belongs to.
#[derive(Debug)]
pub enum AccessError {
    /// The store answered with no statement outcome at all.
    MissingResponse,
    /// A statement that must yield a record yielded none.
    MissingRecord,
    /// A value did not have the shape named here.
    XValueNotOfType(&'static str),
    /// A record lacks the key named here.
    XPropertyNotFound(String),
    /// A search was asked for under a field name that is not a search field.
    InvalidSearchField(String),
    /// An identifier has an opening bracket in it, and is not handed to the
    /// store's parser.
    InvalidIdentifier(String),
    /// The store itself failed.
    Surreal(surrealdb::Error),
}

/// The mathematical model of an [`AccessError`].
pub enum Failure {
    MissingResponse,
    MissingRecord,
    ValueNotOfType(Seq<char>),
    PropertyNotFound(Seq<char>),
    InvalidSearchField(Seq<char>),
    InvalidIdentifier(Seq<char>),
    Store(surrealdb::Error),
}

impl View for AccessError {
    type V = Failure;

    open spec fn view(&self) -> Failure {
        match self {
            AccessError::MissingResponse => Failure::MissingResponse,
            AccessError::MissingRecord => Failure::MissingRecord,
            AccessError::XValueNotOfType(shape) => Failure::ValueNotOfType(shape@),
            AccessError::XPropertyNotFound(key) => Failure::PropertyNotFound(key@),
            AccessError::InvalidSearchField(field) => Failure::InvalidSearchField(field@),
            AccessError::InvalidIdentifier(text) => Failure::InvalidIdentifier(text@),
            AccessError::Surreal(cause) => Failure::Store(*cause),
        }
    }
}

} // verus!
