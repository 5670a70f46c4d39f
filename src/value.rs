//! Structured, string-keyed values that commands take and return, and the
//! request and result types of the dispatcher.
use vstd::prelude::*;
use crate::text::same_text;

verus! {

/// A JSON-like value.
pub enum Value {
    Null,
    Bool(bool),
    Int(i64),
    Text(String),
    List(Vec<Value>),
    Object(Vec<(String, Value)>),
}

/// A named call with its arguments.
pub struct CommandRequest {
    pub name: String,
    pub arguments: Vec<(String, Value)>,
}

/// What a call gives back: a value, or a message that says why it failed.
pub enum CommandResult {
    Success(Value),
    Failure(String),
}

/// `v` is the text `s`.
pub open spec fn is_text(v: Value, s: Seq<char>) -> bool {
    v is Text && v->Text_0@ == s
}

/// `e` is the entry `key: s` whose value is text.
pub open spec fn is_text_entry(e: (String, Value), key: Seq<char>, s: Seq<char>) -> bool {
    e.0@ == key && is_text(e.1, s)
}

/// `v` is a list of texts, `items` in order.
pub open spec fn is_text_list(v: Value, items: Seq<Seq<char>>) -> bool {
    &&& v is List
    &&& v->List_0@.len() == items.len()
    &&& forall|i: int| 0 <= i < items.len() ==> is_text(#[trigger] v->List_0@[i], items[i])
}

/// Index of the first entry of `fields` under `key`, if any.
pub open spec fn field_index(fields: Seq<(String, Value)>, key: Seq<char>) -> Option<int>
    decreases fields.len(),
{
    if fields.len() == 0 {
        None
    } else if fields.last().0@ == key {
        match field_index(fields.drop_last(), key) {
            Some(i) => Some(i),
            None => Some(fields.len() - 1),
        }
    } else {
        field_index(fields.drop_last(), key)
    }
}

/// The value of the first entry of `fields` under `key`, if any.
pub open spec fn field_spec(fields: Seq<(String, Value)>, key: Seq<char>) -> Option<Value> {
    match field_index(fields, key) {
        Some(i) => Some(fields[i].1),
        None => None,
    }
}

proof fn field_index_first(fields: Seq<(String, Value)>, key: Seq<char>, i: int)
    requires
        0 <= i < fields.len(),
        fields[i].0@ == key,
        forall|j: int| 0 <= j < i ==> (#[trigger] fields[j].0)@ != key,
    ensures
        field_index(fields, key) == Some(i),
    decreases fields.len(),
{
    if i < fields.len() - 1 {
        field_index_first(fields.drop_last(), key, i);
    } else {
        field_index_none(fields.drop_last(), key);
    }
}

proof fn field_index_none(fields: Seq<(String, Value)>, key: Seq<char>)
    requires
        forall|j: int| 0 <= j < fields.len() ==> (#[trigger] fields[j].0)@ != key,
    ensures
        field_index(fields, key) is None,
    decreases fields.len(),
{
    if fields.len() > 0 {
        field_index_none(fields.drop_last(), key);
    }
}

/// An entry `key: value` whose key is a string literal.
pub fn entry(key: &str, value: Value) -> (r: (String, Value))
    ensures
        r.0@ == key@,
        r.1 == value,
{
    (key.to_owned(), value)
}

/// An entry `key: text`.
pub fn text_entry(key: &str, text: &str) -> (r: (String, Value))
    ensures
        is_text_entry(r, key@, text@),
{
    (key.to_owned(), Value::Text(text.to_owned()))
}

/// Looks up `key` among `fields`; the first entry under it wins.
pub fn find_field<'a>(fields: &'a Vec<(String, Value)>, key: &str) -> (r: Option<&'a Value>)
    ensures
        match field_spec(fields@, key@) {
            Some(v) => r == Some(&v),
            None => r is None,
        },
{
    let mut i: usize = 0;
    while i < fields.len()
        invariant
            i <= fields@.len(),
            forall|j: int| 0 <= j < i ==> (#[trigger] fields@[j].0)@ != key@,
        decreases fields@.len() - i,
    {
        if same_text(fields[i].0.as_str(), key) {
            proof {
                field_index_first(fields@, key@, i as int);
            }
            return Some(&fields[i].1);
        }
        i = i + 1;
    }
    proof {
        field_index_none(fields@, key@);
    }
    None
}

} // verus!
