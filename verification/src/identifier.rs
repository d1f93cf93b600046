//! Record identifiers of the form `table:local`.
//!
//! An identifier is made by pure formatting and then shown to the store's
//! own parser, which decides whether it is one. The parser is handed plain
//! texts only: a text with an opening bracket in it would have it read a
//! whole value of the statement language in the place of the local id, and
//! is refused before it gets there.

use vstd::prelude::*;
use vstd::string::*;

verus! {

/// Whether `surrealdb::sql::thing` reads a record identifier from a text.
pub uninterp spec fn thing_accepted(input: Seq<char>) -> bool;

/// Whether a text has no `[` and no `{` in it.
pub open spec fn plain(text: Seq<char>) -> bool {
    forall|i: int| 0 <= i < text.len() ==> text[i] != '[' && text[i] != '{'
}

/// Calls `surrealdb::sql::thing` on `input` and tells whether it read a
/// record identifier from it, with its failure where it did not.
///
/// The contract only says that the outcome is the one `thing_accepted`
/// names for this text. It asks for a plain text: then the parser reads a
/// table name, a colon and a number or a name, and never a bracketed value,
/// whose grammar has inputs that it does not return from.
#[verifier::external_body]
pub(crate) fn check_thing(input: &str) -> (r: Result<(), surrealdb::Error>)
    requires
        plain(input@),
    ensures
        r is Ok <==> thing_accepted(input@),
{
    match surrealdb::sql::thing(input) {
        Ok(_) => Ok(()),
        Err(e) => Err(e),
    }
}

/// The text `table:local`.
pub open spec fn qualified(table: Seq<char>, local: Seq<char>) -> Seq<char> {
    table + seq![':'] + local
}

/// Prefixes a local id with its table name. Pure formatting: nothing about
/// `local` is checked here.
pub fn qualify(table: &str, local: &str) -> (r: String)
    ensures
        r@ == qualified(table@, local@),
{
    proof {
        reveal_strlit(":");
        assert(":"@ =~= seq![':']);
    }
    let mut out = String::from_str(table);
    out.append(":");
    out.append(local);
    out
}

/// Whether a text has no `[` and no `{` in it.
pub fn is_plain(text: &str) -> (r: bool)
    ensures
        r == plain(text@),
{
    let n = text.unicode_len();
    let mut i: usize = 0;
    while i < n
        invariant
            i <= n,
            n == text@.len(),
            forall|j: int| 0 <= j < i ==> text@[j] != '[' && text@[j] != '{',
        decreases n - i,
    {
        let c = text.get_char(i);
        if c == '[' || c == '{' {
            return false;
        }
        i = i + 1;
    }
    true
}

/// Whether a text is one that the store reads a record identifier from:
/// a plain text that the store's parser accepts.
pub open spec fn readable(text: Seq<char>) -> bool {
    plain(text) && thing_accepted(text)
}

} // verus!
