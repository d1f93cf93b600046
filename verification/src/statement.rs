//! The statement builder: the statement shapes of the access layer, each a
//! fixed template with named placeholders and the values bound to them.
//!
//! Text that comes with a request is only ever bound to a placeholder. What
//! is written into a template is fixed program text: a table name, a
//! persisted field name, an operator.

use vstd::prelude::*;
use vstd::string::*;
use crate::codec::put;
use crate::value::{fields, Document, GenericValue};

verus! {

/// A statement template and the values of its placeholders.
#[derive(Clone, Debug, PartialEq, Eq)]
pub struct QueryStatement {
    template: String,
    bindings: Vec<(String, GenericValue)>,
}

/// The mathematical model of a [`QueryStatement`].
pub struct StatementModel {
    pub template: Seq<char>,
    pub bindings: Map<Seq<char>, Document>,
}

impl View for QueryStatement {
    type V = StatementModel;

    closed spec fn view(&self) -> StatementModel {
        StatementModel { template: self.template@, bindings: fields(self.bindings@) }
    }
}

impl QueryStatement {
    /// The template text.
    pub fn template(&self) -> (r: &str)
        ensures
            r@ == self@.template,
    {
        self.template.as_str()
    }

    /// The bound values, as entries of placeholder name and value.
    pub fn bindings(&self) -> (r: &Vec<(String, GenericValue)>)
        ensures
            fields(r@) == self@.bindings,
    {
        &self.bindings
    }

    /// The template text and the bound values, to hand to the store.
    pub fn into_parts(self) -> (r: (String, Vec<(String, GenericValue)>))
        ensures
            r.0@ == self@.template,
            fields(r.1@) == self@.bindings,
    {
        (self.template, self.bindings)
    }
}

/// How a search compares a field with the bound value.
#[derive(Clone, Copy, Debug, PartialEq, Eq)]
pub enum Comparison {
    /// The field equals the value.
    Equals,
    /// The field, a text, contains the value.
    Contains,
    /// The field is among the values of a sequence.
    Inside,
}

impl Comparison {
    /// The operator as the statement language writes it.
    pub open spec fn operator_text(self) -> Seq<char> {
        match self {
            Comparison::Equals => "="@,
            Comparison::Contains => "CONTAINS"@,
            Comparison::Inside => "INSIDE"@,
        }
    }

    /// The operator as the statement language writes it.
    pub fn operator(self) -> (r: &'static str)
        ensures
            r@ == self.operator_text(),
    {
        match self {
            Comparison::Equals => "=",
            Comparison::Contains => "CONTAINS",
            Comparison::Inside => "INSIDE",
        }
    }
}

/// Creates a record in the table bound to `tb` from the document bound to
/// `data`, and asks for the stored record back.
pub open spec fn create_statement(table: Seq<char>, data: Document) -> StatementModel {
    StatementModel {
        template: "CREATE type::table($tb) CONTENT $data RETURN *"@,
        bindings: Map::empty().insert("tb"@, Document::Text(table)).insert("data"@, data),
    }
}

/// Selects the record whose identifier is bound to `th`.
pub open spec fn fetch_statement(target: Seq<char>) -> StatementModel {
    StatementModel {
        template: "SELECT * FROM $th"@,
        bindings: Map::empty().insert("th"@, Document::Identifier(target)),
    }
}

/// Merges the document bound to `data` into the record whose identifier is
/// bound to `th`, and asks for the stored record back. A merge overwrites the
/// keys that the document has and leaves the others as they are.
pub open spec fn merge_statement(target: Seq<char>, patch: Document) -> StatementModel {
    StatementModel {
        template: "UPDATE $th MERGE $data RETURN *"@,
        bindings: Map::empty().insert("th"@, Document::Identifier(target)).insert("data"@, patch),
    }
}

/// Deletes the record whose identifier is bound to `th`, and asks for what
/// was deleted.
pub open spec fn delete_statement(target: Seq<char>) -> StatementModel {
    StatementModel {
        template: "DELETE $th RETURN *"@,
        bindings: Map::empty().insert("th"@, Document::Identifier(target)),
    }
}

/// Selects every record of a table.
pub open spec fn fetch_all_statement(table: Seq<char>) -> StatementModel {
    StatementModel { template: "SELECT * FROM "@ + table + ";"@, bindings: Map::empty() }
}

/// Selects the records of a table for which one comparison of a field with
/// the value bound to `placeholder` holds.
pub open spec fn search_statement(
    table: Seq<char>,
    column: Seq<char>,
    comparison: Comparison,
    placeholder: Seq<char>,
    value: Document,
) -> StatementModel {
    StatementModel {
        template: "SELECT * FROM "@ + table + " WHERE "@ + column + " "@
            + comparison.operator_text() + " $"@ + placeholder + ";"@,
        bindings: Map::empty().insert(placeholder, value),
    }
}

/// The statement that creates a record of `table` from `data`.
pub fn create(table: &str, data: GenericValue) -> (r: QueryStatement)
    ensures
        r@ == create_statement(table@, data@),
{
    let mut bindings: Vec<(String, GenericValue)> = Vec::new();
    assert(fields(bindings@) =~= Map::empty());
    put(&mut bindings, "tb", GenericValue::String(String::from_str(table)));
    put(&mut bindings, "data", data);
    QueryStatement {
        template: String::from_str("CREATE type::table($tb) CONTENT $data RETURN *"),
        bindings,
    }
}

/// The statement that fetches the record with the identifier `target`.
pub fn fetch_by_id(target: String) -> (r: QueryStatement)
    ensures
        r@ == fetch_statement(target@),
{
    let mut bindings: Vec<(String, GenericValue)> = Vec::new();
    assert(fields(bindings@) =~= Map::empty());
    put(&mut bindings, "th", GenericValue::Identifier(target));
    QueryStatement { template: String::from_str("SELECT * FROM $th"), bindings }
}

/// The statement that merges `patch` into the record with the identifier
/// `target`.
pub fn merge_update(target: String, patch: GenericValue) -> (r: QueryStatement)
    ensures
        r@ == merge_statement(target@, patch@),
{
    let mut bindings: Vec<(String, GenericValue)> = Vec::new();
    assert(fields(bindings@) =~= Map::empty());
    put(&mut bindings, "th", GenericValue::Identifier(target));
    put(&mut bindings, "data", patch);
    QueryStatement { template: String::from_str("UPDATE $th MERGE $data RETURN *"), bindings }
}

/// The statement that deletes the record with the identifier `target`.
pub fn delete(target: String) -> (r: QueryStatement)
    ensures
        r@ == delete_statement(target@),
{
    let mut bindings: Vec<(String, GenericValue)> = Vec::new();
    assert(fields(bindings@) =~= Map::empty());
    put(&mut bindings, "th", GenericValue::Identifier(target));
    QueryStatement { template: String::from_str("DELETE $th RETURN *"), bindings }
}

/// The statement that fetches every record of `table`.
pub fn fetch_all(table: &'static str) -> (r: QueryStatement)
    ensures
        r@ == fetch_all_statement(table@),
{
    let mut template = String::from_str("SELECT * FROM ");
    template.append(table);
    template.append(";");
    let bindings: Vec<(String, GenericValue)> = Vec::new();
    assert(fields(bindings@) =~= Map::empty());
    QueryStatement { template, bindings }
}

/// The statement that searches `table` for the records whose `column`
/// compares to `value` as `comparison` says.
pub fn search(
    table: &'static str,
    column: &'static str,
    comparison: Comparison,
    placeholder: &'static str,
    value: GenericValue,
) -> (r: QueryStatement)
    ensures
        r@ == search_statement(table@, column@, comparison, placeholder@, value@),
{
    let mut template = String::from_str("SELECT * FROM ");
    template.append(table);
    template.append(" WHERE ");
    template.append(column);
    template.append(" ");
    template.append(comparison.operator());
    template.append(" $");
    template.append(placeholder);
    template.append(";");
    let mut bindings: Vec<(String, GenericValue)> = Vec::new();
    assert(fields(bindings@) =~= Map::empty());
    put(&mut bindings, placeholder, value);
    QueryStatement { template, bindings }
}

} // verus!
