use vstd::prelude::*;

use crate::text::same_text;

verus! {

/// A decoded JSON document. Object members keep the order of the text.
pub enum Json {
    Null,
    Bool(bool),
    /// A number, as written.
    Number(String),
    Str(String),
    Array(Vec<Json>),
    Object(Vec<(String, Json)>),
}

/// The value of the first member named `key`.
pub open spec fn lookup(members: Seq<(String, Json)>, key: Seq<char>) -> Option<Json>
    decreases members.len(),
{
    if members.len() == 0 {
        None
    } else if members[0].0@ == key {
        Some(members[0].1)
    } else {
        lookup(members.drop_first(), key)
    }
}

/// The member `key` of an object; nothing for any other value.
pub open spec fn member(j: Json, key: Seq<char>) -> Option<Json> {
    match j {
        Json::Object(m) => lookup(m@, key),
        _ => None,
    }
}

/// The element at `i` of an array; nothing for any other value.
pub open spec fn element(j: Json, i: int) -> Option<Json> {
    match j {
        Json::Array(items) => if 0 <= i < items@.len() {
            Some(items@[i])
        } else {
            None
        },
        _ => None,
    }
}

/// `member` through a value that may be missing.
pub open spec fn at_key(o: Option<Json>, key: Seq<char>) -> Option<Json> {
    match o {
        Some(j) => member(j, key),
        None => None,
    }
}

/// `element` through a value that may be missing.
pub open spec fn at_index(o: Option<Json>, i: int) -> Option<Json> {
    match o {
        Some(j) => element(j, i),
        None => None,
    }
}

/// The text of a string value.
pub open spec fn text(o: Option<Json>) -> Option<Seq<char>> {
    match o {
        Some(Json::Str(s)) => Some(s@),
        _ => None,
    }
}

/// The items of an array value.
pub open spec fn items(o: Option<Json>) -> Option<Seq<Json>> {
    match o {
        Some(Json::Array(v)) => Some(v@),
        _ => None,
    }
}

/// A reference to a value that may be missing, seen as a value.
pub open spec fn opt(o: Option<&Json>) -> Option<Json> {
    match o {
        Some(j) => Some(*j),
        None => None,
    }
}

/// The member `key` of `o`, if `o` is an object that has one.
pub fn get<'a>(o: Option<&'a Json>, key: &str) -> (r: Option<&'a Json>)
    ensures
        opt(r) == at_key(opt(o), key@),
{
    match o {
        Some(Json::Object(m)) => {
            let mut i: usize = 0;
            assert(m@.skip(0) =~= m@);
            assert(at_key(opt(o), key@) == lookup(m@, key@));
            while i < m.len()
                invariant
                    at_key(opt(o), key@) == lookup(m@, key@),
                    i <= m@.len(),
                    lookup(m@, key@) == lookup(m@.skip(i as int), key@),
                decreases m.len() - i,
            {
                assert(m@.skip(i as int).drop_first() =~= m@.skip(i + 1));
                assert(m@.skip(i as int)[0] == m@[i as int]);
                if same_text(m[i].0.as_str(), key) {
                    assert(lookup(m@.skip(i as int), key@) == Some(m@[i as int].1));
                    return Some(&m[i].1);
                }
                i = i + 1;
            }
            None
        },
        _ => None,
    }
}

/// The element `i` of `o`, if `o` is an array that long.
pub fn index<'a>(o: Option<&'a Json>, i: usize) -> (r: Option<&'a Json>)
    ensures
        opt(r) == at_index(opt(o), i as int),
{
    match o {
        Some(Json::Array(v)) => if i < v.len() {
            Some(&v[i])
        } else {
            None
        },
        _ => None,
    }
}

/// The text of `o`, if `o` is a string.
pub fn as_text<'a>(o: Option<&'a Json>) -> (r: Option<&'a String>)
    ensures
        match r {
            Some(s) => text(opt(o)) == Some(s@),
            None => text(opt(o)) is None,
        },
{
    match o {
        Some(Json::Str(s)) => Some(s),
        _ => None,
    }
}

/// The items of `o`, if `o` is an array.
pub fn as_items<'a>(o: Option<&'a Json>) -> (r: Option<&'a Vec<Json>>)
    ensures
        match r {
            Some(v) => items(opt(o)) == Some(v@),
            None => items(opt(o)) is None,
        },
{
    match o {
        Some(Json::Array(v)) => Some(v),
        _ => None,
    }
}

} // verus!
