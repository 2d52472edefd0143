//! JSON values as the model APIs exchange them, with the lookups the
//! request builders and response parsers use.
//!
//! A number keeps what the parsers read of it: a non-negative integer, a
//! negative integer, or any other number by its decimal text.
use vstd::prelude::*;

use crate::text::str_eq;

verus! {

/// A JSON number.
#[derive(Debug)]
pub enum JsonNumber {
    /// An integer from 0 to `u64::MAX`.
    Unsigned(u64),
    /// A negative integer from `i64::MIN`.
    Negative(i64),
    /// Any other number, by its decimal text.
    Decimal(String),
}

/// A JSON value. An object lists its members in order.
#[derive(Debug)]
pub enum Json {
    Null,
    Bool(bool),
    Number(JsonNumber),
    String(String),
    Array(Vec<Json>),
    Object(Vec<(String, Json)>),
}

/// Whether two JSON values are the same value: the same kind, the same texts
/// and numbers, and the same elements and members in the same order.
pub open spec fn json_eq(a: Json, b: Json) -> bool
    decreases a, 1int,
{
    match a {
        Json::Null => b is Null,
        Json::Bool(x) => b matches Json::Bool(y) && x == y,
        Json::Number(JsonNumber::Unsigned(x)) => b matches Json::Number(JsonNumber::Unsigned(y)) && x == y,
        Json::Number(JsonNumber::Negative(x)) => b matches Json::Number(JsonNumber::Negative(y)) && x == y,
        Json::Number(JsonNumber::Decimal(x)) => b matches Json::Number(JsonNumber::Decimal(y)) && x@ == y@,
        Json::String(x) => b matches Json::String(y) && x@ == y@,
        Json::Array(xs) => match b {
            Json::Array(ys) => items_eq(xs@, ys@),
            _ => false,
        },
        Json::Object(xs) => match b {
            Json::Object(ys) => members_eq(xs@, ys@),
            _ => false,
        },
    }
}

/// Whether two lists of JSON values are pairwise the same.
pub open spec fn items_eq(xs: Seq<Json>, ys: Seq<Json>) -> bool
    decreases xs, 0int,
{
    if xs.len() == 0 {
        ys.len() == 0
    } else {
        &&& ys.len() == xs.len()
        &&& items_eq(xs.subrange(0, xs.len() - 1), ys.subrange(0, ys.len() - 1))
        &&& json_eq(xs[xs.len() - 1], ys[ys.len() - 1])
    }
}

/// Whether two lists of object members have the same keys and the same values, in order.
pub open spec fn members_eq(xs: Seq<(String, Json)>, ys: Seq<(String, Json)>) -> bool
    decreases xs, 0int,
{
    if xs.len() == 0 {
        ys.len() == 0
    } else {
        &&& ys.len() == xs.len()
        &&& members_eq(xs.subrange(0, xs.len() - 1), ys.subrange(0, ys.len() - 1))
        &&& xs[xs.len() - 1].0@ == ys[ys.len() - 1].0@
        &&& json_eq(xs[xs.len() - 1].1, ys[ys.len() - 1].1)
    }
}

/// The value of the first member named `key`, if any.
pub open spec fn lookup(fields: Seq<(String, Json)>, key: Seq<char>) -> Option<Json>
    decreases fields.len(),
{
    if fields.len() == 0 {
        None
    } else if fields[0].0@ == key {
        Some(fields[0].1)
    } else {
        lookup(fields.drop_first(), key)
    }
}

/// The member `key` of an object; `None` for a missing member or a value that
/// is not an object.
pub open spec fn field(v: Option<Json>, key: Seq<char>) -> Option<Json> {
    match v {
        Some(Json::Object(fields)) => lookup(fields@, key),
        _ => None,
    }
}

/// The text of a string value.
pub open spec fn str_of(v: Option<Json>) -> Option<Seq<char>> {
    match v {
        Some(Json::String(s)) => Some(s@),
        _ => None,
    }
}

/// The elements of an array value.
pub open spec fn array_of(v: Option<Json>) -> Option<Seq<Json>> {
    match v {
        Some(Json::Array(items)) => Some(items@),
        _ => None,
    }
}

/// A number that is an integer from 0 to `u64::MAX`.
pub open spec fn u64_of(v: Option<Json>) -> Option<u64> {
    match v {
        Some(Json::Number(JsonNumber::Unsigned(n))) => Some(n),
        _ => None,
    }
}

/// The views of an optional string.
pub open spec fn opt_view(o: Option<String>) -> Option<Seq<char>> {
    match o {
        Some(s) => Some(s@),
        None => None,
    }
}

fn lookup_in<'a>(fields: &'a Vec<(String, Json)>, key: &str) -> (r: Option<&'a Json>)
    ensures
        match r {
            Some(v) => lookup(fields@, key@) == Some(*v),
            None => lookup(fields@, key@) is None,
        },
{
    let mut i: usize = 0;
    assert(fields@.subrange(0, fields@.len() as int) =~= fields@);
    while i < fields.len()
        invariant
            i <= fields@.len(),
            lookup(fields@, key@) == lookup(fields@.subrange(i as int, fields@.len() as int), key@),
        decreases fields.len() - i,
    {
        let ghost rest = fields@.subrange(i as int, fields@.len() as int);
        assert(rest.drop_first() =~= fields@.subrange(i + 1, fields@.len() as int));
        if str_eq(fields[i].0.as_str(), key) {
            return Some(&fields[i].1);
        }
        i = i + 1;
    }
    None
}

impl Json {
    /// The member `key` of an object; `None` for a missing member or a value
    /// that is not an object.
    pub fn get<'a>(&'a self, key: &str) -> (r: Option<&'a Json>)
        ensures
            match r {
                Some(v) => field(Some(*self), key@) == Some(*v),
                None => field(Some(*self), key@) is None,
            },
    {
        match self {
            Json::Object(fields) => lookup_in(fields, key),
            _ => None,
        }
    }

    /// The text of a string value.
    pub fn as_str(&self) -> (r: Option<&str>)
        ensures
            match r {
                Some(s) => str_of(Some(*self)) == Some(s@),
                None => str_of(Some(*self)) is None,
            },
    {
        match self {
            Json::String(s) => Some(s.as_str()),
            _ => None,
        }
    }

    /// The elements of an array value.
    pub fn as_array(&self) -> (r: Option<&Vec<Json>>)
        ensures
            match r {
                Some(items) => array_of(Some(*self)) == Some(items@),
                None => array_of(Some(*self)) is None,
            },
    {
        match self {
            Json::Array(items) => Some(items),
            _ => None,
        }
    }

    /// A number that is an integer from 0 to `u64::MAX`.
    pub fn as_u64(&self) -> (r: Option<u64>)
        ensures
            r == u64_of(Some(*self)),
    {
        match self {
            Json::Number(JsonNumber::Unsigned(n)) => Some(*n),
            _ => None,
        }
    }

    /// Whether the value is `null`.
    pub fn is_null(&self) -> (r: bool)
        ensures
            r == (*self is Null),
    {
        match self {
            Json::Null => true,
            _ => false,
        }
    }
}

/// The text of the string member `key` of `v`, if `v` is an object with such a member.
pub fn str_field(v: Option<&Json>, key: &str) -> (r: Option<String>)
    ensures
        opt_view(r) == str_of(field(
            match v {
                Some(x) => Some(*x),
                None => None,
            },
            key@,
        )),
{
    match v {
        Some(x) => match x.get(key) {
            Some(f) => match f.as_str() {
                Some(s) => Some(String::from_str(s)),
                None => None,
            },
            None => None,
        },
        None => None,
    }
}

/// A string value.
pub fn text(s: &str) -> (r: Json)
    ensures
        r matches Json::String(t) && t@ == s@,
{
    Json::String(String::from_str(s))
}

/// A one-member object.
pub fn member(key: &str, value: Json) -> (r: (String, Json))
    ensures
        r.0@ == key@,
        r.1 == value,
{
    (String::from_str(key), value)
}

/// An optional string as a JSON value: its text, or `null`.
pub fn text_or_null(s: &Option<String>) -> (r: Json)
    ensures
        match s {
            Some(t) => r matches Json::String(u) && u@ == t@,
            None => r is Null,
        },
{
    match s {
        Some(t) => Json::String(t.clone()),
        None => Json::Null,
    }
}

/// A copy of a JSON value.
pub fn copy_json(v: &Json) -> (r: Json)
    ensures
        json_eq(r, *v),
    decreases v,
{
    match v {
        Json::Null => Json::Null,
        Json::Bool(b) => Json::Bool(*b),
        Json::Number(n) => Json::Number(
            match n {
                JsonNumber::Unsigned(u) => JsonNumber::Unsigned(*u),
                JsonNumber::Negative(i) => JsonNumber::Negative(*i),
                JsonNumber::Decimal(d) => JsonNumber::Decimal(d.clone()),
            },
        ),
        Json::String(s) => Json::String(s.clone()),
        Json::Array(items) => {
            let mut out: Vec<Json> = Vec::new();
            let mut i: usize = 0;
            while i < items.len()
                invariant
                    i <= items@.len(),
                    *v == Json::Array(*items),
                    items_eq(out@, items@.take(i as int)),
                decreases items.len() - i,
            {
                assert(decreases_to!(*v => (*v)->Array_0));
                assert(decreases_to!((*v)->Array_0 => (*v)->Array_0[i as int]));
                let ghost before = out@;
                let x = copy_json(&items[i]);
                out.push(x);
                proof {
                    assert(out@.subrange(0, out@.len() - 1) =~= before);
                    assert(items@.take(i + 1).subrange(0, i as int) =~= items@.take(i as int));
                }
                i = i + 1;
            }
            assert(items@.take(i as int) =~= items@);
            Json::Array(out)
        },
        Json::Object(fields) => {
            let mut out: Vec<(String, Json)> = Vec::new();
            let mut i: usize = 0;
            while i < fields.len()
                invariant
                    i <= fields@.len(),
                    *v == Json::Object(*fields),
                    members_eq(out@, fields@.take(i as int)),
                decreases fields.len() - i,
            {
                assert(decreases_to!(*v => (*v)->Object_0));
                assert(decreases_to!((*v)->Object_0 => (*v)->Object_0[i as int]));
                assert(decreases_to!((*v)->Object_0[i as int] => (*v)->Object_0[i as int].1));
                let ghost before = out@;
                let key = fields[i].0.clone();
                let value = copy_json(&fields[i].1);
                out.push((key, value));
                proof {
                    assert(out@.subrange(0, out@.len() - 1) =~= before);
                    assert(fields@.take(i + 1).subrange(0, i as int) =~= fields@.take(i as int));
                }
                i = i + 1;
            }
            assert(fields@.take(i as int) =~= fields@);
            Json::Object(out)
        },
    }
}

/// Two pairwise-same lists stay so when one same value is appended to each.
pub proof fn lemma_items_eq_push(a: Seq<Json>, b: Seq<Json>, x: Json, y: Json)
    requires
        items_eq(a, b),
        json_eq(x, y),
    ensures
        items_eq(a.push(x), b.push(y)),
{
    assert(a.push(x).subrange(0, a.len() as int) =~= a);
    assert(b.push(y).subrange(0, b.len() as int) =~= b);
    if a.len() == 0 {
        assert(b.len() == 0);
    }
}

} // verus!
