use crate::config::str_eq;
use serde_json::Value;
use vstd::prelude::*;

verus! {

#[verifier::external_type_specification]
#[verifier::external_body]
pub struct ExValue(Value);

/// A JSON number as the library reads it: an integer, or a fraction it does not use.
#[derive(Clone, Copy, Debug, PartialEq, Eq, Structural)]
pub enum JsonNumber {
    PosInt(u64),
    NegInt(i64),
    Float,
}

/// A parsed document (JSON, MessagePack or TOML). Object members keep the
/// order the parser gave them, one per key.
#[derive(Debug)]
pub enum Json {
    Null,
    Bool(bool),
    Number(JsonNumber),
    Str(String),
    Array(Vec<Json>),
    Object(Vec<(String, Json)>),
}

/// The parse of UTF-8 JSON text; `None` when it is not JSON.
pub uninterp spec fn json_of(text: Seq<char>) -> Option<Json>;

/// Converts serde_json's document into the library's own, one value for one:
/// an integer number keeps its value, any other number reads as `Float`.
#[verifier::external_body]
pub(crate) fn to_document(v: Value) -> (r: Json) {
    match v {
        Value::Null => Json::Null,
        Value::Bool(b) => Json::Bool(b),
        Value::Number(n) => Json::Number(match (n.as_u64(), n.as_i64()) {
            (Some(u), _) => JsonNumber::PosInt(u),
            (None, Some(i)) => JsonNumber::NegInt(i),
            _ => JsonNumber::Float,
        }),
        Value::String(s) => Json::Str(s),
        Value::Array(a) => Json::Array(a.into_iter().map(to_document).collect()),
        Value::Object(m) => Json::Object(m.into_iter().map(|(k, x)| (k, to_document(x))).collect()),
    }
}

/// Relies on `serde_json::from_str`: parses UTF-8 JSON text; the result
/// depends on the text alone.
#[verifier::external_body]
pub(crate) fn parse_json(text: &str) -> (r: Option<Json>)
    ensures
        r == json_of(text@),
{
    match serde_json::from_str::<Value>(text) {
        Ok(v) => Some(to_document(v)),
        Err(_) => None,
    }
}

/// The value of the first member called `key`.
pub open spec fn member(m: Seq<(String, Json)>, key: Seq<char>) -> Option<Json>
    decreases m.len(),
{
    if m.len() == 0 {
        None
    } else if m[0].0@ == key {
        Some(m[0].1)
    } else {
        member(m.drop_first(), key)
    }
}

/// The member `key` of an object; `None` for a non-object.
pub open spec fn field_of(v: Json, key: Seq<char>) -> Option<Json> {
    match v {
        Json::Object(m) => member(m@, key),
        _ => None,
    }
}

pub open spec fn u64_of(v: Json) -> Option<u64> {
    match v {
        Json::Number(JsonNumber::PosInt(n)) => Some(n),
        _ => None,
    }
}

pub open spec fn i64_of(v: Json) -> Option<i64> {
    match v {
        Json::Number(JsonNumber::PosInt(n)) => if n <= i64::MAX {
            Some(n as i64)
        } else {
            None
        },
        Json::Number(JsonNumber::NegInt(n)) => Some(n),
        _ => None,
    }
}

pub open spec fn bool_of(v: Json) -> Option<bool> {
    match v {
        Json::Bool(b) => Some(b),
        _ => None,
    }
}

pub open spec fn str_of(v: Json) -> Option<String> {
    match v {
        Json::Str(s) => Some(s),
        _ => None,
    }
}

/// Index of the first member called `key`.
pub fn member_index(m: &Vec<(String, Json)>, key: &str) -> (r: Option<usize>)
    ensures
        match r {
            Some(i) => i < m@.len() && m@[i as int].0@ == key@ && member(m@, key@) == Some(
                m@[i as int].1,
            ),
            None => member(m@, key@) is None,
        },
{
    let n = m.len();
    let mut i: usize = 0;
    proof {
        assert(m@.subrange(0, n as int) =~= m@);
    }
    while i < n
        invariant
            n == m@.len(),
            i <= n,
            member(m@, key@) == member(m@.subrange(i as int, n as int), key@),
        decreases n - i,
    {
        let ghost rest = m@.subrange(i as int, n as int);
        proof {
            assert(rest[0] == m@[i as int]);
            assert(rest.drop_first() =~= m@.subrange(i as int + 1, n as int));
        }
        if str_eq(m[i].0.as_str(), key) {
            return Some(i);
        }
        i = i + 1;
    }
    proof {
        assert(m@.subrange(n as int, n as int).len() == 0);
    }
    None
}

/// The member `key` of an object.
pub fn field<'a>(v: &'a Json, key: &str) -> (r: Option<&'a Json>)
    ensures
        match r {
            Some(x) => field_of(*v, key@) == Some(*x),
            None => field_of(*v, key@) is None,
        },
{
    match v {
        Json::Object(m) => match member_index(m, key) {
            Some(i) => Some(&m[i].1),
            None => None,
        },
        _ => None,
    }
}

pub fn as_u64(v: &Json) -> (r: Option<u64>)
    ensures
        r == u64_of(*v),
{
    match v {
        Json::Number(JsonNumber::PosInt(n)) => Some(*n),
        _ => None,
    }
}

pub fn as_i64(v: &Json) -> (r: Option<i64>)
    ensures
        r == i64_of(*v),
{
    match v {
        Json::Number(JsonNumber::PosInt(n)) => {
            if *n <= i64::MAX as u64 {
                Some(*n as i64)
            } else {
                None
            }
        },
        Json::Number(JsonNumber::NegInt(n)) => Some(*n),
        _ => None,
    }
}

pub fn as_bool(v: &Json) -> (r: Option<bool>)
    ensures
        r == bool_of(*v),
{
    match v {
        Json::Bool(b) => Some(*b),
        _ => None,
    }
}

pub fn as_string(v: &Json) -> (r: Option<String>)
    ensures
        r == str_of(*v),
{
    match v {
        Json::Str(s) => Some(s.clone()),
        _ => None,
    }
}

pub fn is_object(v: &Json) -> (r: bool)
    ensures
        r == v is Object,
{
    match v {
        Json::Object(_) => true,
        _ => false,
    }
}

} // verus!
