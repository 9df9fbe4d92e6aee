//! A parsed JSON document, as the message decoder reads it.
use vstd::prelude::*;

verus! {

/// A JSON value. Numbers are kept as the decoder needs them: a non-negative
/// integer that fits in 64 bits, or some other number.
#[derive(Debug)]
pub enum Json {
    Null,
    Bool(bool),
    UInt(u64),
    OtherNumber,
    Str(String),
    Array(Vec<Json>),
    /// Members in document order.
    Object(Vec<(String, Json)>),
}

/// The value of the first member named `key`.
pub open spec fn lookup(members: Seq<(String, Json)>, key: Seq<char>) -> Option<Json>
    decreases members.len(),
{
    if members.len() == 0 {
        None
    } else if members[0].0@ == key {
        Some(members[0].1)
    } else {
        lookup(members.drop_first(), key)
    }
}

/// The member `key` of an object; none for a missing member or a value that
/// is not an object.
pub open spec fn field(j: Json, key: Seq<char>) -> Option<Json> {
    match j {
        Json::Object(members) => lookup(members@, key),
        _ => None,
    }
}

pub open spec fn as_u64(v: Option<Json>) -> Option<u64> {
    match v {
        Some(Json::UInt(n)) => Some(n),
        _ => None,
    }
}

pub open spec fn as_text(v: Option<Json>) -> Option<Seq<char>> {
    match v {
        Some(Json::Str(s)) => Some(s@),
        _ => None,
    }
}

pub open spec fn as_bool(v: Option<Json>) -> Option<bool> {
    match v {
        Some(Json::Bool(b)) => Some(b),
        _ => None,
    }
}

pub open spec fn deref_opt(v: Option<&Json>) -> Option<Json> {
    match v {
        Some(x) => Some(*x),
        None => None,
    }
}

/// Looks up the member `key` of `j`.
pub fn get_field<'a>(j: &'a Json, key: &str) -> (r: Option<&'a Json>)
    ensures
        deref_opt(r) == field(*j, key@),
{
    match j {
        Json::Object(members) => {
            let wanted = String::from_str(key);
            let n = members.len();
            let mut i: usize = 0;
            assert(members@.subrange(0, n as int) =~= members@);
            while i < n
                invariant
                    0 <= i <= n,
                    n == members@.len(),
                    wanted@ == key@,
                    field(*j, key@) == lookup(members@, key@),
                    lookup(members@.subrange(i as int, n as int), key@) == lookup(members@, key@),
                decreases n - i,
            {
                assert(members@.subrange(i as int, n as int).drop_first() =~= members@.subrange(
                    i + 1,
                    n as int,
                ));
                if members[i].0 == wanted {
                    return Some(&members[i].1);
                }
                i = i + 1;
            }
            None
        },
        _ => None,
    }
}

/// A value as an integer.
pub fn u64_of(v: Option<&Json>) -> (r: Option<u64>)
    ensures
        r == as_u64(deref_opt(v)),
{
    match v {
        Some(Json::UInt(n)) => Some(*n),
        _ => None,
    }
}

/// A value as a string.
pub fn text_of<'a>(v: Option<&'a Json>) -> (r: Option<&'a String>)
    ensures
        r matches Some(s) ==> as_text(deref_opt(v)) == Some(s@),
        r is None <==> as_text(deref_opt(v)) is None,
{
    match v {
        Some(Json::Str(s)) => Some(s),
        _ => None,
    }
}

/// A value as a boolean.
pub fn bool_of(v: Option<&Json>) -> (r: Option<bool>)
    ensures
        r == as_bool(deref_opt(v)),
{
    match v {
        Some(Json::Bool(b)) => Some(*b),
        _ => None,
    }
}

} // verus!
