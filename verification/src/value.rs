//! The generic document value exchanged with the store, and its
//! mathematical model.

use vstd::prelude::*;
use vstd::string::*;

verus! {

/// The mathematical model of a document value.
///
/// A mapping is a `Map` from key text to value: the order in which its
/// entries were written down is not part of it.
pub enum Document {
    Null,
    Bool(bool),
    Number(int),
    Text(Seq<char>),
    List(Seq<Document>),
    Record(Map<Seq<char>, Document>),
    Identifier(Seq<char>),
}

/// A document value as the store accepts and returns it.
///
/// `Object` keeps its entries in the order they were written. Where a key
/// occurs more than once, the last entry with that key is the one that
/// counts, as when the entries are inserted into a map one after another.
#[derive(Debug, PartialEq, Eq)]
pub enum GenericValue {
    /// No value.
    Null,
    /// A boolean.
    Bool(bool),
    /// A number. The store keeps whole numbers as signed 64-bit integers.
    Number(i64),
    /// A text.
    String(String),
    /// A sequence of values, in order.
    Array(Vec<GenericValue>),
    /// A mapping from key to value, as entries of key and value.
    Object(Vec<(String, GenericValue)>),
    /// The identifier of a record, as the text `table:local`.
    Identifier(String),
}

/// The models of the values of a sequence, in order.
pub open spec fn documents(values: Seq<GenericValue>) -> Seq<Document>
    decreases values,
{
    Seq::new(
        values.len(),
        |i: int|
            if 0 <= i < values.len() {
                values[i].view()
            } else {
                Document::Null
            },
    )
}

/// The mapping that a sequence of entries stands for: the entries inserted
/// one after another, a later one replacing an earlier one with its key.
pub open spec fn fields(entries: Seq<(String, GenericValue)>) -> Map<Seq<char>, Document>
    decreases entries, 0int,
{
    if entries.len() == 0 {
        Map::empty()
    } else {
        fields(entries.drop_last()).insert(entries.last().0@, entries.last().1.view())
    }
}

impl View for GenericValue {
    type V = Document;

    open spec fn view(&self) -> Document
        decreases self,
    {
        match self {
            GenericValue::Null => Document::Null,
            GenericValue::Bool(b) => Document::Bool(*b),
            GenericValue::Number(n) => Document::Number(*n as int),
            GenericValue::String(s) => Document::Text(s@),
            GenericValue::Array(items) => Document::List(documents(items@)),
            GenericValue::Object(entries) => Document::Record(fields(entries@)),
            GenericValue::Identifier(s) => Document::Identifier(s@),
        }
    }
}

/// `entries` with one more entry stands for the same mapping with that
/// entry inserted.
pub proof fn lemma_fields_push(entries: Seq<(String, GenericValue)>, entry: (String, GenericValue))
    ensures
        fields(entries.push(entry)) == fields(entries).insert(entry.0@, entry.1@),
{
    assert(entries.push(entry).drop_last() =~= entries);
}

/// A key that no entry has is not in the mapping.
pub proof fn lemma_fields_absent(entries: Seq<(String, GenericValue)>, key: Seq<char>)
    requires
        forall|j: int| 0 <= j < entries.len() ==> (#[trigger] entries[j]).0@ != key,
    ensures
        !fields(entries).contains_key(key),
    decreases entries.len(),
{
    if entries.len() > 0 {
        let front = entries.drop_last();
        assert forall|j: int| 0 <= j < front.len() implies (#[trigger] front[j]).0@ != key by {
            assert(front[j] == entries[j]);
        }
        lemma_fields_absent(front, key);
        assert(entries.last() == entries[entries.len() - 1]);
        assert(fields(entries) == fields(front).insert(entries.last().0@, entries.last().1@));
    }
}

/// The mapping gives a key the value of the last entry that has it.
pub proof fn lemma_fields_found(entries: Seq<(String, GenericValue)>, key: Seq<char>, i: int)
    requires
        0 <= i < entries.len(),
        entries[i].0@ == key,
        forall|j: int| i < j < entries.len() ==> (#[trigger] entries[j]).0@ != key,
    ensures
        fields(entries).contains_key(key),
        fields(entries)[key] == entries[i].1@,
    decreases entries.len(),
{
    let front = entries.drop_last();
    assert(entries.last() == entries[entries.len() - 1]);
    assert(fields(entries) == fields(front).insert(entries.last().0@, entries.last().1@));
    if i < entries.len() - 1 {
        assert(front[i] == entries[i]);
        assert forall|j: int| i < j < front.len() implies (#[trigger] front[j]).0@ != key by {
            assert(front[j] == entries[j]);
        }
        lemma_fields_found(front, key, i);
    }
}

/// Whether two texts are the same.
pub fn same_text(a: &str, b: &str) -> (r: bool)
    ensures
        r == (a@ == b@),
{
    let left = String::from_str(a);
    let right = String::from_str(b);
    left == right
}

/// Copies of the values of `values`, in order.
pub fn clone_values(values: &Vec<GenericValue>) -> (r: Vec<GenericValue>)
    ensures
        documents(r@) == documents(values@),
    decreases values, 1int,
{
    let mut out: Vec<GenericValue> = Vec::new();
    let mut i: usize = 0;
    while i < values.len()
        invariant
            i <= values.len(),
            out.len() == i,
            forall|j: int| 0 <= j < i ==> (#[trigger] out[j])@ == values[j]@,
        decreases values.len() - i,
    {
        let copy = values[i].clone();
        out.push(copy);
        i = i + 1;
    }
    assert(documents(out@) =~= documents(values@));
    out
}

/// Copies of the entries of `entries`, in order.
fn clone_entries(entries: &Vec<(String, GenericValue)>) -> (r: Vec<(String, GenericValue)>)
    ensures
        fields(r@) == fields(entries@),
    decreases entries, 1int,
{
    let mut out: Vec<(String, GenericValue)> = Vec::new();
    let mut i: usize = 0;
    while i < entries.len()
        invariant
            i <= entries.len(),
            out.len() == i,
            fields(out@) == fields(entries@.take(i as int)),
        decreases entries.len() - i,
    {
        let key = entries[i].0.clone();
        let copy = entries[i].1.clone();
        proof {
            lemma_fields_push(out@, (key, copy));
            assert(entries@.take(i + 1).drop_last() =~= entries@.take(i as int));
        }
        out.push((key, copy));
        i = i + 1;
    }
    assert(entries@.take(i as int) =~= entries@);
    out
}

impl Clone for GenericValue {
    /// A copy that stands for the same document.
    fn clone(&self) -> (r: Self)
        ensures
            r@ == self@,
        decreases self, 0int,
    {
        match self {
            GenericValue::Null => GenericValue::Null,
            GenericValue::Bool(b) => GenericValue::Bool(*b),
            GenericValue::Number(n) => GenericValue::Number(*n),
            GenericValue::String(s) => GenericValue::String(s.clone()),
            GenericValue::Array(items) => GenericValue::Array(clone_values(items)),
            GenericValue::Object(entries) => GenericValue::Object(clone_entries(entries)),
            GenericValue::Identifier(s) => GenericValue::Identifier(s.clone()),
        }
    }
}

/// The text of a text value, the empty text for any other value.
pub open spec fn text_or_empty(document: Document) -> Seq<char> {
    match document {
        Document::Text(text) => text,
        _ => Seq::empty(),
    }
}

/// The boolean of a boolean value, `false` for any other value.
pub open spec fn flag_or_false(document: Document) -> bool {
    match document {
        Document::Bool(flag) => flag,
        _ => false,
    }
}

/// The texts of the elements of a sequence value, each as `text_or_empty`
/// gives it; no texts for a value that is no sequence.
pub open spec fn texts_or_none(document: Document) -> Seq<Seq<char>> {
    match document {
        Document::List(items) => Seq::new(items.len(), |i: int| text_or_empty(items[i])),
        _ => Seq::empty(),
    }
}

/// The texts that a sequence of text slices holds.
pub open spec fn texts(slices: Seq<&str>) -> Seq<Seq<char>> {
    Seq::new(slices.len(), |i: int| slices[i]@)
}

impl GenericValue {
    /// The text, where the value is a text.
    pub fn as_str(&self) -> (r: Option<&str>)
        ensures
            match r {
                Some(text) => self@ == Document::Text(text@),
                None => !(self@ is Text),
            },
    {
        match self {
            GenericValue::String(text) => Some(text.as_str()),
            _ => None,
        }
    }

    /// The boolean, where the value is a boolean.
    pub fn as_bool(&self) -> (r: Option<bool>)
        ensures
            match r {
                Some(flag) => self@ == Document::Bool(flag),
                None => !(self@ is Bool),
            },
    {
        match self {
            GenericValue::Bool(flag) => Some(*flag),
            _ => None,
        }
    }

    /// The text of a text value, the empty text for any other value.
    pub fn text_or_empty(&self) -> (r: &str)
        ensures
            r@ == text_or_empty(self@),
    {
        match self.as_str() {
            Some(text) => text,
            None => {
                proof {
                    reveal_strlit("");
                }
                assert(""@ =~= Seq::<char>::empty());
                ""
            },
        }
    }

    /// The boolean of a boolean value, `false` for any other value.
    pub fn flag_or_false(&self) -> (r: bool)
        ensures
            r == flag_or_false(self@),
    {
        match self.as_bool() {
            Some(flag) => flag,
            None => false,
        }
    }

    /// The texts of the elements of a sequence value; no texts for a value
    /// that is no sequence.
    pub fn texts_or_none(&self) -> (r: Vec<&str>)
        ensures
            texts(r@) == texts_or_none(self@),
    {
        let mut out: Vec<&str> = Vec::new();
        match self {
            GenericValue::Array(items) => {
                let mut i: usize = 0;
                while i < items.len()
                    invariant
                        i <= items.len(),
                        out.len() == i,
                        forall|j: int|
                            0 <= j < i ==> (#[trigger] out[j])@ == text_or_empty(items[j]@),
                    decreases items.len() - i,
                {
                    out.push(items[i].text_or_empty());
                    i = i + 1;
                }
                assert(texts(out@) =~= texts_or_none(self@));
            },
            _ => {
                assert(texts(out@) =~= texts_or_none(self@));
            },
        }
        out
    }
}

/// The value that `entries` gives to `key`, if any.
pub fn find<'a>(entries: &'a Vec<(String, GenericValue)>, key: &str) -> (r: Option<
    &'a GenericValue,
>)
    ensures
        match r {
            Some(value) => fields(entries@).contains_key(key@) && value@ == fields(entries@)[key@],
            None => !fields(entries@).contains_key(key@),
        },
{
    let wanted = String::from_str(key);
    let mut i: usize = entries.len();
    while i > 0
        invariant
            i <= entries.len(),
            wanted@ == key@,
            forall|j: int| i <= j < entries.len() ==> (#[trigger] entries[j]).0@ != key@,
        decreases i,
    {
        i = i - 1;
        if entries[i].0 == wanted {
            proof {
                lemma_fields_found(entries@, key@, i as int);
            }
            return Some(&entries[i].1);
        }
    }
    proof {
        lemma_fields_absent(entries@, key@);
    }
    None
}

} // verus!
