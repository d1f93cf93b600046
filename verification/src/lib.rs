//! Typed access to a schema-less document store.
//!
//! Items and users are kept in the store as documents. This library is the
//! layer between the typed records and the store:
//!
//! - [`value`] is the generic document value that the store accepts and
//!   returns, with its mathematical model;
//! - [`codec`] turns records into documents and documents into records,
//!   through the persisted names of the fields of [`item`] and [`user`];
//! - [`identifier`] makes record identifiers of the form `table:local`;
//! - [`statement`] builds the statements: fixed templates with named
//!   placeholders, and the values bound to them;
//! - [`response`] takes the record or the records out of what the store
//!   answers;
//! - [`request`] and [`facade`] put these together into the operations on
//!   items and on users;
//! - [`error`] holds the failures, and [`laws`] what holds of the codec for
//!   every record.
//!
//! The library does not talk to the store. An operation gives a request,
//! the caller submits its statement and hands the answer back:
//!
//! ```text
//! let request = ItemBMC::get("abc")?;
//! let answer = /* submit request.statement() with request.mutating() */;
//! let item = request.finish(answer)?;
//! ```

pub mod codec;
pub mod error;
pub mod facade;
pub mod identifier;
pub mod item;
pub mod laws;
pub mod request;
pub mod response;
pub mod statement;
pub mod user;
pub mod value;
