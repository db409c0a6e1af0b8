//! A JSON tree as the decoder reads it, with field lookup and key checks.

use vstd::prelude::*;

verus! {

/// One JSON value. Object members keep the order in which they were read.
pub enum Json {
    Null,
    Bool(bool),
    Number(String),
    Str(String),
    Array(Vec<Json>),
    Object(Vec<(String, Json)>),
}

/// The value of the first member named `key`, if any.
pub open spec fn lookup(fields: Seq<(String, Json)>, key: Seq<char>) -> Option<Json>
    decreases fields.len(),
{
    if fields.len() == 0 {
        None
    } else if fields[0].0@ == key {
        Some(fields[0].1)
    } else {
        lookup(fields.drop_first(), key)
    }
}

/// Every member name is `a` or `b`.
pub open spec fn keys_within(fields: Seq<(String, Json)>, a: Seq<char>, b: Seq<char>) -> bool {
    forall|i: int| 0 <= i < fields.len() ==> (#[trigger] fields[i]).0@ == a || fields[i].0@ == b
}

proof fn lemma_lookup_skip(fields: Seq<(String, Json)>, key: Seq<char>, i: int)
    requires
        0 <= i < fields.len(),
        fields[i].0@ != key,
    ensures
        lookup(fields.subrange(i, fields.len() as int), key) == lookup(
            fields.subrange(i + 1, fields.len() as int),
            key,
        ),
{
    let s = fields.subrange(i, fields.len() as int);
    assert(s.drop_first() =~= fields.subrange(i + 1, fields.len() as int));
}

/// Position of the first member named `key`.
pub fn find_field(fields: &Vec<(String, Json)>, key: &String) -> (r: Option<usize>)
    ensures
        match r {
            Some(i) => i < fields@.len() && lookup(fields@, key@) == Some(fields@[i as int].1),
            None => lookup(fields@, key@) is None,
        },
{
    let mut i: usize = 0;
    assert(fields@.subrange(0, fields@.len() as int) =~= fields@);
    while i < fields.len()
        invariant
            i <= fields@.len(),
            lookup(fields@, key@) == lookup(fields@.subrange(i as int, fields@.len() as int), key@),
        decreases fields@.len() - i,
    {
        if fields[i].0.eq(key) {
            let ghost s = fields@.subrange(i as int, fields@.len() as int);
            assert(s[0] == fields@[i as int]);
            return Some(i);
        }
        proof {
            lemma_lookup_skip(fields@, key@, i as int);
        }
        i = i + 1;
    }
    assert(fields@.subrange(i as int, fields@.len() as int).len() == 0);
    None
}

/// Whether every member name is `a` or `b`.
pub fn fields_within(fields: &Vec<(String, Json)>, a: &String, b: &String) -> (r: bool)
    ensures
        r == keys_within(fields@, a@, b@),
{
    let mut i: usize = 0;
    while i < fields.len()
        invariant
            i <= fields@.len(),
            forall|j: int| 0 <= j < i ==> (#[trigger] fields@[j]).0@ == a@ || fields@[j].0@ == b@,
        decreases fields@.len() - i,
    {
        if !fields[i].0.eq(a) && !fields[i].0.eq(b) {
            return false;
        }
        i = i + 1;
    }
    true
}

#[verifier::external_type_specification]
#[verifier::external_body]
pub struct ExValue(serde_json::Value);

/// What serde_json makes of a text: its value tree, or nothing where serde_json rejects it.
pub uninterp spec fn json_of(text: Seq<char>) -> Option<Json>;

/// What serde_json prints for the value it reads from a text, or nothing where serde_json
/// rejects the text.
pub uninterp spec fn canonical_json(text: Seq<char>) -> Option<Seq<char>>;

/// Copies a serde_json::Value into a `Json`, node for node (numbers as serde_json prints
/// them). Used only by the body of `parse_json`.
#[verifier::external_body]
fn json_from_value(v: serde_json::Value) -> Json {
    match v {
        serde_json::Value::Null => Json::Null,
        serde_json::Value::Bool(b) => Json::Bool(b),
        serde_json::Value::Number(n) => Json::Number(n.to_string()),
        serde_json::Value::String(s) => Json::Str(s),
        serde_json::Value::Array(a) => Json::Array(a.into_iter().map(json_from_value).collect()),
        serde_json::Value::Object(m) => Json::Object(
            m.into_iter().map(|(k, x)| (k, json_from_value(x))).collect(),
        ),
    }
}

/// Relies on serde_json::from_str::<serde_json::Value>: the tree depends on the text alone.
#[verifier::external_body]
pub(crate) fn parse_json(text: &str) -> (r: Option<Json>)
    ensures
        r == json_of(text@),
{
    serde_json::from_str::<serde_json::Value>(text).ok().map(json_from_value)
}

/// Relies on serde_json::from_str::<serde_json::Value> followed by serde_json::to_string:
/// the printed form depends on the text alone.
#[verifier::external_body]
pub(crate) fn canonical_text(text: &str) -> (r: Option<String>)
    ensures
        r is None <==> canonical_json(text@) is None,
        r matches Some(c) ==> canonical_json(text@) == Some(c@),
{
    match serde_json::from_str::<serde_json::Value>(text) {
        Ok(v) => serde_json::to_string(&v).ok(),
        Err(_) => None,
    }
}

} // verus!
