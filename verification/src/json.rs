//! A model of JSON values, as inference requests carry them.
//!
//! Objects keep their members as a list of key/value pairs; a member lookup
//! yields the value of the first member with the key.

use vstd::prelude::*;

verus! {

/// A JSON value. Numbers are kept as their literal text, exactly as they
/// are written in the document.
#[derive(Debug, PartialEq)]
pub enum Json {
    Null,
    Bool(bool),
    Number(String),
    Str(String),
    Array(Vec<Json>),
    Object(Vec<(String, Json)>),
}

/// The value of the first member named `key` in `members`, if any.
pub open spec fn member(members: Seq<(String, Json)>, key: Seq<char>) -> Option<Json>
    decreases members.len(),
{
    if members.len() == 0 {
        None
    } else if members[0].0@ == key {
        Some(members[0].1)
    } else {
        member(members.drop_first(), key)
    }
}

/// What looking `key` up in `v` gives: the member's value for an object,
/// nothing for any other value.
pub open spec fn get_spec(v: Json, key: Seq<char>) -> Option<Json> {
    match v {
        Json::Object(members) => member(members@, key),
        _ => None,
    }
}

/// The text of a string value; nothing for any other value.
pub open spec fn as_str_spec(v: Json) -> Option<Seq<char>> {
    match v {
        Json::Str(s) => Some(s@),
        _ => None,
    }
}

/// Whether `a` and `b` are the same JSON value: the same variant, the same
/// scalar or text, and item for item (member for member, keys included)
/// the same contents.
pub open spec fn same_json(a: Json, b: Json) -> bool
    decreases a,
{
    match a {
        Json::Array(x) => match b {
            Json::Array(y) => x@.len() == y@.len() && forall|i: int|
                #![trigger y@[i]]
                0 <= i < x@.len() ==> same_json(x@[i], y@[i]),
            _ => false,
        },
        Json::Object(x) => match b {
            Json::Object(y) => x@.len() == y@.len() && forall|i: int|
                #![trigger y@[i]]
                0 <= i < x@.len() ==> x@[i].0 == y@[i].0 && same_json(x@[i].1, y@[i].1),
            _ => false,
        },
        Json::Number(n) => b matches Json::Number(m) && n == m,
        Json::Str(t) => b matches Json::Str(u) && t == u,
        _ => a == b,
    }
}

impl Clone for Json {
    /// A copy of this value, member for member and item for item.
    fn clone(&self) -> (r: Self)
        ensures
            same_json(*self, r),
        decreases self,
    {
        match self {
            Json::Null => Json::Null,
            Json::Bool(b) => Json::Bool(*b),
            Json::Number(n) => Json::Number(n.clone()),
            Json::Str(s) => Json::Str(s.clone()),
            Json::Array(items) => {
                let mut copy: Vec<Json> = Vec::new();
                let n = items.len();
                let mut i: usize = 0;
                while i < n
                    invariant
                        *self == Json::Array(*items),
                        n == items@.len(),
                        i <= n,
                        copy@.len() == i,
                        forall|j: int|
                            #![trigger copy@[j]]
                            0 <= j < i ==> same_json(items@[j], copy@[j]),
                    decreases n - i,
                {
                    assert(decreases_to!(*self => (*self)->Array_0));
                    assert(decreases_to!(*items => items@));
                    assert(decreases_to!(items@ => items@[i as int]));
                    assert(decreases_to!(self => items@[i as int]));
                    copy.push(items[i].clone());
                    i = i + 1;
                }
                let ghost out = Json::Array(copy);
                assert(same_json(*self, out) == (items@.len() == copy@.len() && forall|j: int|
                    #![trigger copy@[j]]
                    0 <= j < items@.len() ==> same_json(items@[j], copy@[j])));
                Json::Array(copy)
            },
            Json::Object(members) => {
                let mut copy: Vec<(String, Json)> = Vec::new();
                let n = members.len();
                let mut i: usize = 0;
                while i < n
                    invariant
                        *self == Json::Object(*members),
                        n == members@.len(),
                        i <= n,
                        copy@.len() == i,
                        forall|j: int|
                            #![trigger copy@[j]]
                            0 <= j < i ==> members@[j].0 == copy@[j].0 && same_json(members@[j].1, copy@[j].1),
                    decreases n - i,
                {
                    assert(decreases_to!(*self => (*self)->Object_0));
                    assert(decreases_to!(*members => members@));
                    assert(decreases_to!(members@ => members@[i as int]));
                    assert(decreases_to!(members@[i as int] => members@[i as int].1));
                    assert(decreases_to!(self => members@[i as int].1));
                    let key = members[i].0.clone();
                    let value = members[i].1.clone();
                    copy.push((key, value));
                    i = i + 1;
                }
                let ghost out = Json::Object(copy);
                assert(same_json(*self, out) == (members@.len() == copy@.len() && forall|j: int|
                    #![trigger copy@[j]]
                    0 <= j < members@.len() ==> members@[j].0 == copy@[j].0 && same_json(members@[j].1, copy@[j].1)));
                Json::Object(copy)
            },
        }
    }
}

impl Json {
    /// Looks up member `key` of an object. Any other value has no members.
    pub fn get(&self, key: &str) -> (r: Option<&Json>)
        ensures
            r matches Some(v) ==> get_spec(*self, key@) == Some(*v),
            r is None ==> get_spec(*self, key@) is None,
    {
        match self {
            Json::Object(members) => {
                let wanted = String::from_str(key);
                let n = members.len();
                let mut i: usize = 0;
                assert(members@.skip(0) =~= members@);
                while i < n
                    invariant
                        n == members@.len(),
                        wanted@ == key@,
                        get_spec(*self, key@) == member(members@, key@),
                        i <= n,
                        member(members@, key@) == member(members@.skip(i as int), key@),
                    decreases n - i,
                {
                    assert(members@.skip(i as int).drop_first() =~= members@.skip(i + 1));
                    assert(members@.skip(i as int)[0] == members@[i as int]);
                    if members[i].0 == wanted {
                        return Some(&members[i].1);
                    }
                    i = i + 1;
                }
                None
            },
            _ => None,
        }
    }

    /// The text of a string value.
    pub fn as_str(&self) -> (r: Option<&str>)
        ensures
            r matches Some(s) ==> as_str_spec(*self) == Some(s@),
            r is None ==> as_str_spec(*self) is None,
    {
        match self {
            Json::Str(s) => Some(s.as_str()),
            _ => None,
        }
    }
}

} // verus!
