//! The library's own model of a parsed JSON document. The text is parsed by
//! the application (serde_json) and handed over in this shape; the logic
//! here only ever reads members, booleans, strings and arrays.

use vstd::prelude::*;

use crate::seqs::{first_where, lemma_first_where_is, lemma_first_where_none};
use crate::text::eq_strings;

verus! {

/// A JSON value. Numbers carry no payload: no logic of the library reads one
/// out of a free-form document.
pub enum Json {
    Null,
    Bool(bool),
    Number,
    Str(String),
    Array(Vec<Json>),
    Object(Vec<Member>),
}

/// One `"key": value` member of an object.
pub struct Member {
    pub key: String,
    pub value: Json,
}

/// The predicate "this member's key is `key`".
pub open spec fn key_is(key: Seq<char>) -> spec_fn(Member) -> bool {
    |m: Member| m.key@ == key
}

/// The value stored under `key` among `members` (object keys are unique, so
/// the first match is the only one).
pub open spec fn member_of(members: Seq<Member>, key: Seq<char>) -> Option<Json> {
    match first_where(members, key_is(key)) {
        Some(i) => Some(members[i].value),
        None => None,
    }
}

/// `Value::get(key)`: the member of an object, `None` for any other value.
pub open spec fn get_spec(v: Json, key: Seq<char>) -> Option<Json> {
    match v {
        Json::Object(m) => member_of(m@, key),
        _ => None,
    }
}

/// `Value::as_bool`.
pub open spec fn bool_of(v: Option<Json>) -> Option<bool> {
    match v {
        Some(Json::Bool(b)) => Some(b),
        _ => None,
    }
}

/// `Value::as_str`, viewed as characters.
pub open spec fn str_of(v: Option<Json>) -> Option<Seq<char>> {
    match v {
        Some(Json::Str(s)) => Some(s@),
        _ => None,
    }
}

/// A borrowed optional value, viewed by value.
pub open spec fn deref_opt(r: Option<&Json>) -> Option<Json> {
    match r {
        Some(v) => Some(*v),
        None => None,
    }
}

/// The member of `members` under `key`.
pub fn find_member<'a>(members: &'a Vec<Member>, key: &str) -> (r: Option<&'a Json>)
    ensures
        deref_opt(r) == member_of(members@, key@),
{
    let ghost p = key_is(key@);
    let mut i: usize = 0;
    while i < members.len()
        invariant
            0 <= i <= members.len(),
            p == key_is(key@),
            forall|j: int| 0 <= j < i ==> !p(#[trigger] members@[j]),
        decreases members.len() - i,
    {
        if eq_strings(members[i].key.as_str(), key) {
            proof {
                lemma_first_where_is(members@, p, i as int);
            }
            return Some(&members[i].value);
        }
        i += 1;
    }
    proof {
        lemma_first_where_none(members@, p);
    }
    None
}

/// `Value::get(key)`.
pub fn get<'a>(v: &'a Json, key: &str) -> (r: Option<&'a Json>)
    ensures
        deref_opt(r) == get_spec(*v, key@),
{
    match v {
        Json::Object(m) => find_member(m, key),
        _ => None,
    }
}

/// `Value::get(key).and_then(Value::as_bool)`.
pub fn get_bool(v: &Json, key: &str) -> (r: Option<bool>)
    ensures
        r == bool_of(get_spec(*v, key@)),
{
    match get(v, key) {
        Some(Json::Bool(b)) => Some(*b),
        _ => None,
    }
}

/// `Value::get(key).and_then(Value::as_str)`.
pub fn get_str<'a>(v: &'a Json, key: &str) -> (r: Option<&'a String>)
    ensures
        match r {
            Some(s) => str_of(get_spec(*v, key@)) == Some(s@),
            None => str_of(get_spec(*v, key@)) is None,
        },
{
    match get(v, key) {
        Some(Json::Str(s)) => Some(s),
        _ => None,
    }
}

} // verus!
