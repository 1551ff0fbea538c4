//! JSON values as the library reads them: the fields of the controller's
//! replies that have no fixed shape.

use vstd::prelude::*;

use crate::text::str_eq;

verus! {

/// A JSON number, by the readings the library makes of it.
#[derive(Debug, Clone, Copy, PartialEq, Eq, Structural)]
pub struct JsonNumber {
    /// Its value, when it is an integer that fits a `u64`.
    pub as_u64: Option<u64>,
    /// Its value, when it is an integer that fits an `i64`.
    pub as_i64: Option<i64>,
}

/// A JSON value. An object's entries have distinct keys.
#[derive(Debug)]
pub enum Json {
    Null,
    Bool(bool),
    Number(JsonNumber),
    Str(String),
    Array(Vec<Json>),
    Object(Vec<(String, Json)>),
}

/// The value under `key` among an object's entries.
pub open spec fn entry_get(es: Seq<(String, Json)>, key: Seq<char>) -> Option<Json>
    decreases es.len(),
{
    if es.len() == 0 {
        None
    } else if es[0].0@ == key {
        Some(es[0].1)
    } else {
        entry_get(es.drop_first(), key)
    }
}

/// The value under `key` of an object (none for other values).
pub open spec fn get(v: Json, key: Seq<char>) -> Option<Json> {
    match v {
        Json::Object(es) => entry_get(es@, key),
        _ => None,
    }
}

/// `get` through an optional value.
pub open spec fn get_in(o: Option<Json>, key: Seq<char>) -> Option<Json> {
    match o {
        Some(v) => get(v, key),
        None => None,
    }
}

/// The text of a string value.
pub open spec fn as_str(o: Option<Json>) -> Option<Seq<char>> {
    match o {
        Some(Json::Str(s)) => Some(s@),
        _ => None,
    }
}

/// The truth value of a boolean.
pub open spec fn as_bool(o: Option<Json>) -> Option<bool> {
    match o {
        Some(Json::Bool(b)) => Some(b),
        _ => None,
    }
}

/// A number's value as a `u64`, when it is one.
pub open spec fn as_u64(o: Option<Json>) -> Option<u64> {
    match o {
        Some(Json::Number(n)) => n.as_u64,
        _ => None,
    }
}

/// A number's value as an `i64`, when it is one.
pub open spec fn as_i64(o: Option<Json>) -> Option<i64> {
    match o {
        Some(Json::Number(n)) => n.as_i64,
        _ => None,
    }
}

/// The items of an array.
pub open spec fn as_array(o: Option<Json>) -> Option<Seq<Json>> {
    match o {
        Some(Json::Array(a)) => Some(a@),
        _ => None,
    }
}

/// The texts of the string items of a list, in order (other items
/// skipped).
pub open spec fn string_items(s: Seq<Json>) -> Seq<Seq<char>>
    decreases s.len(),
{
    if s.len() == 0 {
        Seq::empty()
    } else {
        let rest = string_items(s.drop_last());
        match s.last() {
            Json::Str(t) => rest.push(t@),
            _ => rest,
        }
    }
}

/// A reference to an optional value, as the value.
pub open spec fn deref_opt(r: Option<&Json>) -> Option<Json> {
    match r {
        Some(x) => Some(*x),
        None => None,
    }
}

/// The value under `key` of an object.
pub fn get_field<'a>(v: &'a Json, key: &str) -> (r: Option<&'a Json>)
    ensures
        deref_opt(r) == get(*v, key@),
{
    match v {
        Json::Object(es) => {
            let mut i: usize = 0;
            assert(es@.subrange(0, es@.len() as int) =~= es@);
            while i < es.len()
                invariant
                    i <= es@.len(),
                    get(*v, key@) == entry_get(es@, key@),
                    entry_get(es@, key@) == entry_get(es@.subrange(i as int, es@.len() as int), key@),
                decreases es.len() - i,
            {
                let ghost rest = es@.subrange(i as int, es@.len() as int);
                assert(rest.drop_first() =~= es@.subrange(i + 1, es@.len() as int));
                assert(rest[0] == es@[i as int]);
                if str_eq(es[i].0.as_str(), key) {
                    let found: &Json = &es[i].1;
                    assert(entry_get(rest, key@) == Some(*found));
                    return Some(found);
                }
                i = i + 1;
            }
            None
        },
        _ => None,
    }
}

/// `get_field` through an optional value.
pub fn field_in<'a>(o: Option<&'a Json>, key: &str) -> (r: Option<&'a Json>)
    ensures
        deref_opt(r) == get_in(deref_opt(o), key@),
{
    match o {
        Some(v) => get_field(v, key),
        None => None,
    }
}

/// The text of a string value.
pub fn str_of<'a>(o: Option<&'a Json>) -> (r: Option<&'a str>)
    ensures
        match r {
            Some(s) => as_str(deref_opt(o)) == Some(s@),
            None => as_str(deref_opt(o)) is None,
        },
{
    match o {
        Some(Json::Str(s)) => Some(s.as_str()),
        _ => None,
    }
}

/// The truth value of a boolean.
pub fn bool_of(o: Option<&Json>) -> (r: Option<bool>)
    ensures
        r == as_bool(deref_opt(o)),
{
    match o {
        Some(Json::Bool(b)) => Some(*b),
        _ => None,
    }
}

/// A number's value as a `u64`.
pub fn u64_of(o: Option<&Json>) -> (r: Option<u64>)
    ensures
        r == as_u64(deref_opt(o)),
{
    match o {
        Some(Json::Number(n)) => n.as_u64,
        _ => None,
    }
}

/// A number's value as an `i64`.
pub fn i64_of(o: Option<&Json>) -> (r: Option<i64>)
    ensures
        r == as_i64(deref_opt(o)),
{
    match o {
        Some(Json::Number(n)) => n.as_i64,
        _ => None,
    }
}

/// The texts of the string items of an array value (empty when it is not
/// an array).
pub fn string_items_of(o: Option<&Json>) -> (r: Vec<String>)
    ensures
        r@.map_values(|s: String| s@) == match as_array(deref_opt(o)) {
            Some(a) => string_items(a),
            None => Seq::<Seq<char>>::empty(),
        },
{
    let mut out: Vec<String> = Vec::new();
    match o {
        Some(Json::Array(items)) => {
            let mut i: usize = 0;
            while i < items.len()
                invariant
                    i <= items@.len(),
                    out@.map_values(|s: String| s@) == string_items(items@.subrange(0, i as int)),
                decreases items.len() - i,
            {
                assert(items@.subrange(0, i + 1).drop_last() =~= items@.subrange(0, i as int));
                let ghost before = out@;
                match &items[i] {
                    Json::Str(s) => {
                        out.push(s.clone());
                        assert(out@.map_values(|s: String| s@) =~= before.map_values(|s: String| s@).push(s@));
                    },
                    _ => {},
                }
                i = i + 1;
            }
            assert(items@.subrange(0, items@.len() as int) =~= items@);
        },
        _ => {},
    }
    out
}

} // verus!
