//! The JSON documents that the web API answers with, held as plain values, and
//! the lookups the client makes in them.

use vstd::prelude::*;
use crate::text::text_eq;

verus! {

/// A JSON value. Numbers keep the text they were written with; an object keeps
/// its members in order.
pub enum Json {
    Null,
    Bool(bool),
    Number(String),
    Str(String),
    Array(Vec<Json>),
    Object(Vec<(String, Json)>),
}

/// The value under the first member named `key` among `members`.
pub open spec fn lookup(members: Seq<(String, Json)>, key: Seq<char>) -> Option<Json>
    decreases members.len(),
{
    if members.len() == 0 {
        None
    } else if members[0].0@ == key {
        Some(members[0].1)
    } else {
        lookup(members.drop_first(), key)
    }
}

/// The member `key` of `v`, when `v` is present and is an object that has it
/// (what indexing a JSON value by a name yields, a missing value standing for
/// JSON `null`).
pub open spec fn get(v: Option<Json>, key: Seq<char>) -> Option<Json> {
    match v {
        Some(Json::Object(members)) => lookup(members@, key),
        _ => None,
    }
}

/// The text of `v`, when it is a JSON string.
pub open spec fn text(v: Option<Json>) -> Option<Seq<char>> {
    match v {
        Some(Json::Str(s)) => Some(s@),
        _ => None,
    }
}

/// The elements of `v`, when it is a JSON array.
pub open spec fn items(v: Option<Json>) -> Option<Seq<Json>> {
    match v {
        Some(Json::Array(elems)) => Some(elems@),
        _ => None,
    }
}

/// The first element of `v`, when it is a non-empty JSON array.
pub open spec fn first_item(v: Option<Json>) -> Option<Json> {
    match items(v) {
        Some(elems) => if elems.len() > 0 {
            Some(elems[0])
        } else {
            None
        },
        None => None,
    }
}

/// The text at `v[k1][k2]`, when it is a string.
pub open spec fn text_at(v: Json, k1: Seq<char>, k2: Seq<char>) -> Option<Seq<char>> {
    text(get(get(Some(v), k1), k2))
}

/// The text of `t`, or `?` when there is none.
pub open spec fn or_unknown(t: Option<Seq<char>>) -> Seq<char> {
    match t {
        Some(s) => s,
        None => seq!['?'],
    }
}

/// The value a reference points to, for an optional reference.
pub open spec fn deref(r: Option<&Json>) -> Option<Json> {
    match r {
        Some(v) => Some(*v),
        None => None,
    }
}

/// The member `key` of `v`, as `get` describes.
pub fn get_member<'a>(v: Option<&'a Json>, key: &str) -> (r: Option<&'a Json>)
    ensures
        deref(r) == get(deref(v), key@),
{
    match v {
        Some(Json::Object(members)) => {
            let mut i: usize = 0;
            assert(members@.skip(0) =~= members@);
            while i < members.len()
                invariant
                    i <= members@.len(),
                    get(deref(v), key@) == lookup(members@, key@),
                    lookup(members@, key@) == lookup(members@.skip(i as int), key@),
                decreases members.len() - i,
            {
                let ghost rest = members@.skip(i as int);
                assert(rest.drop_first() =~= members@.skip(i + 1));
                assert(rest[0] == members@[i as int]);
                if text_eq(members[i].0.as_str(), key) {
                    return Some(&members[i].1);
                }
                i = i + 1;
            }
            assert(members@.skip(i as int) =~= Seq::<(String, Json)>::empty());
            None
        },
        _ => None,
    }
}

/// The text of `v`, when it is a JSON string.
pub fn get_text<'a>(v: Option<&'a Json>) -> (r: Option<&'a str>)
    ensures
        r is Some <==> text(deref(v)) is Some,
        r matches Some(s) ==> text(deref(v)) == Some(s@),
{
    match v {
        Some(Json::Str(s)) => Some(s.as_str()),
        _ => None,
    }
}

/// The elements of `v`, when it is a JSON array.
pub fn get_items<'a>(v: Option<&'a Json>) -> (r: Option<&'a Vec<Json>>)
    ensures
        r is Some <==> items(deref(v)) is Some,
        r matches Some(a) ==> items(deref(v)) == Some(a@),
{
    match v {
        Some(Json::Array(elems)) => Some(elems),
        _ => None,
    }
}

/// The first element of `v`, when it is a non-empty JSON array.
pub fn get_first<'a>(v: Option<&'a Json>) -> (r: Option<&'a Json>)
    ensures
        deref(r) == first_item(deref(v)),
{
    match get_items(v) {
        Some(elems) => if elems.len() > 0 {
            Some(&elems[0])
        } else {
            None
        },
        None => None,
    }
}

/// The text at `v[k1][k2]`, or `?` when it is not a string.
pub fn text_or_unknown(v: &Json, k1: &str, k2: &str) -> (s: String)
    ensures
        s@ == or_unknown(text_at(*v, k1@, k2@)),
{
    match get_text(get_member(get_member(Some(v), k1), k2)) {
        Some(t) => String::from_str(t),
        None => {
            let mut s = String::new();
            crate::text::push_char(&mut s, '?');
            assert(s@ =~= seq!['?']);
            s
        },
    }
}

} // verus!
