//! A JSON value held as plain data: what the request handlers read from
//! message parameters and put into their replies.

use vstd::prelude::*;
use crate::text::same_text;

verus! {

/// A JSON number, kept as the JSON reader keeps it: a non-negative integer,
/// a negative integer, or a floating-point number (held by its IEEE-754 bits).
#[derive(Debug, Clone, Copy, PartialEq, Eq, Structural)]
pub enum JsonNumber {
    PosInt(u64),
    NegInt(i64),
    Float(u64),
}

/// A JSON value. An object keeps its members in order; looking a key up finds
/// its first member with that key.
#[derive(Debug)]
pub enum JsonValue {
    Null,
    Bool(bool),
    Number(JsonNumber),
    String(String),
    Array(Vec<JsonValue>),
    Object(Vec<(String, JsonValue)>),
}

/// The value of the first member named `key`, if any.
pub open spec fn lookup(members: Seq<(String, JsonValue)>, key: Seq<char>) -> Option<JsonValue>
    decreases members.len(),
{
    if members.len() == 0 {
        None
    } else if members[0].0@ == key {
        Some(members[0].1)
    } else {
        lookup(members.drop_first(), key)
    }
}

/// The member `key` of `v` when `v` is an object that has one.
pub open spec fn member(v: JsonValue, key: Seq<char>) -> Option<JsonValue> {
    match v {
        JsonValue::Object(members) => lookup(members@, key),
        _ => None,
    }
}

/// `v` is the JSON string `s`.
pub open spec fn is_text(v: JsonValue, s: Seq<char>) -> bool {
    v matches JsonValue::String(t) && t@ == s
}

/// The number as a signed 64-bit integer, where it is one.
pub open spec fn number_as_i64(n: JsonNumber) -> Option<i64> {
    match n {
        JsonNumber::PosInt(u) => if u <= i64::MAX { Some(u as i64) } else { None },
        JsonNumber::NegInt(i) => Some(i),
        JsonNumber::Float(_) => None,
    }
}

/// The value as a signed 64-bit integer, where it is a number that is one.
pub open spec fn value_as_i64(v: JsonValue) -> Option<i64> {
    match v {
        JsonValue::Number(n) => number_as_i64(n),
        _ => None,
    }
}

/// The value as a boolean, where it is one.
pub open spec fn value_as_bool(v: JsonValue) -> Option<bool> {
    match v {
        JsonValue::Bool(b) => Some(b),
        _ => None,
    }
}

impl JsonNumber {
    /// The number as a signed 64-bit integer, where it is one.
    pub fn as_i64(&self) -> (r: Option<i64>)
        ensures
            r == number_as_i64(*self),
    {
        match self {
            JsonNumber::PosInt(u) => if *u <= 0x7fff_ffff_ffff_ffffu64 {
                Some(*u as i64)
            } else {
                None
            },
            JsonNumber::NegInt(i) => Some(*i),
            JsonNumber::Float(_) => None,
        }
    }

    /// The number as an unsigned 64-bit integer, where it is one.
    pub fn as_u64(&self) -> (r: Option<u64>)
        ensures
            r == (match *self {
                JsonNumber::PosInt(u) => Some(u),
                _ => None,
            }),
    {
        match self {
            JsonNumber::PosInt(u) => Some(*u),
            _ => None,
        }
    }
}

impl JsonValue {
    /// The member `key` of this value when it is an object that has one.
    pub fn get(&self, key: &str) -> (r: Option<&JsonValue>)
        ensures
            r matches Some(v) ==> member(*self, key@) == Some(*v),
            r is None ==> member(*self, key@) is None,
    {
        match self {
            JsonValue::Object(members) => {
                let n = members.len();
                let mut i: usize = 0;
                assert(members@.skip(0) =~= members@);
                while i < n
                    invariant
                        n == members@.len(),
                        i <= n,
                        member(*self, key@) == lookup(members@, key@),
                        lookup(members@, key@) == lookup(members@.skip(i as int), key@),
                    decreases n - i,
                {
                    let ghost rest = members@.skip(i as int);
                    assert(rest.drop_first() =~= members@.skip(i + 1));
                    assert(rest[0] == members@[i as int]);
                    if same_text(members[i].0.as_str(), key) {
                        return Some(&members[i].1);
                    }
                    i = i + 1;
                }
                None
            },
            _ => None,
        }
    }

    /// The text of this value when it is a JSON string.
    pub fn as_str(&self) -> (r: Option<&String>)
        ensures
            r matches Some(s) ==> *self == JsonValue::String(*s),
            r is None ==> !(*self is String),
    {
        match self {
            JsonValue::String(s) => Some(s),
            _ => None,
        }
    }

    /// The boolean this value is, if it is one.
    pub fn as_bool(&self) -> (r: Option<bool>)
        ensures
            r == value_as_bool(*self),
    {
        match self {
            JsonValue::Bool(b) => Some(*b),
            _ => None,
        }
    }

    /// The value as a signed 64-bit integer, where it is a number that is one.
    pub fn as_i64(&self) -> (r: Option<i64>)
        ensures
            r == value_as_i64(*self),
    {
        match self {
            JsonValue::Number(n) => n.as_i64(),
            _ => None,
        }
    }

    /// Whether this value is the JSON string `s`.
    pub fn is_text(&self, s: &str) -> (r: bool)
        ensures
            r == is_text(*self, s@),
    {
        match self {
            JsonValue::String(t) => same_text(t.as_str(), s),
            _ => false,
        }
    }
}

} // verus!
