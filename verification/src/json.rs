//! Library-owned JSON value tree.
//!
//! Every request body and response payload is shaped and inspected on this
//! tree inside the library; the embedding application converts between this
//! tree and wire bytes.

use vstd::prelude::*;
use crate::EndpointError;
use crate::EndpointResponse;
use crate::text::str_eq;

verus! {

/// A JSON value.  Objects keep their pairs in insertion order.
#[derive(Debug, PartialEq)]
pub enum JsonValue {
    Null,
    Bool(bool),
    Int(i64),
    UInt(u64),
    Str(String),
    Arr(Vec<JsonValue>),
    Obj(Vec<(String, JsonValue)>),
}

/// The value of the first pair of `pairs` whose key reads `key`.
pub open spec fn lookup_first(pairs: Seq<(String, JsonValue)>, key: Seq<char>) -> Option<
    JsonValue,
>
    decreases pairs.len(),
{
    if pairs.len() == 0 {
        None
    } else if pairs[0].0@ == key {
        Some(pairs[0].1)
    } else {
        lookup_first(pairs.drop_first(), key)
    }
}

/// How many pairs of `pairs` have a key reading `key`.
pub open spec fn count_key(pairs: Seq<(String, JsonValue)>, key: Seq<char>) -> nat
    decreases pairs.len(),
{
    if pairs.len() == 0 {
        0
    } else {
        (if pairs[0].0@ == key {
            1nat
        } else {
            0nat
        }) + count_key(pairs.drop_first(), key)
    }
}

/// Some pair of `pairs` has a key reading `key`.
pub open spec fn has_key(pairs: Seq<(String, JsonValue)>, key: Seq<char>) -> bool {
    lookup_first(pairs, key) is Some
}

/// Returns the value of the first pair whose key reads `key`.
pub fn obj_get<'a>(pairs: &'a Vec<(String, JsonValue)>, key: &str) -> (r: Option<&'a JsonValue>)
    ensures
        match r {
            Some(v) => lookup_first(pairs@, key@) == Some(*v),
            None => lookup_first(pairs@, key@) is None,
        },
{
    let n = pairs.len();
    let mut i: usize = 0;
    proof {
        assert(pairs@.skip(0) =~= pairs@);
    }
    while i < n
        invariant
            0 <= i <= n == pairs@.len(),
            lookup_first(pairs@, key@) == lookup_first(pairs@.skip(i as int), key@),
        decreases n - i,
    {
        proof {
            assert(pairs@.skip(i as int)[0] == pairs@[i as int]);
            assert(pairs@.skip(i as int).drop_first() =~= pairs@.skip(i + 1));
        }
        if str_eq(pairs[i].0.as_str(), key) {
            return Some(&pairs[i].1);
        }
        i = i + 1;
    }
    proof {
        assert(pairs@.skip(n as int) =~= Seq::<(String, JsonValue)>::empty());
    }
    None
}

impl JsonValue {
    /// The string payload, when this value is a string.
    pub fn as_str(&self) -> (r: Option<&String>)
        ensures
            match r {
                Some(s) => *self == JsonValue::Str(*s),
                None => !(*self is Str),
            },
    {
        match self {
            JsonValue::Str(s) => Some(s),
            _ => None,
        }
    }

    /// The boolean payload, when this value is a boolean.
    pub fn as_bool(&self) -> (r: Option<bool>)
        ensures
            match r {
                Some(b) => *self == JsonValue::Bool(b),
                None => !(*self is Bool),
            },
    {
        match self {
            JsonValue::Bool(b) => Some(*b),
            _ => None,
        }
    }

    /// The numeric payload as a `u64`, for numbers that are not negative.
    pub fn as_u64(&self) -> (r: Option<u64>)
        ensures
            match r {
                Some(v) => *self == JsonValue::UInt(v) || (*self == JsonValue::Int(v as i64)
                    && v <= i64::MAX),
                None => !(*self is UInt) && (*self is Int ==> self->Int_0 < 0),
            },
    {
        match self {
            JsonValue::UInt(v) => Some(*v),
            JsonValue::Int(v) => if *v >= 0 {
                Some(*v as u64)
            } else {
                None
            },
            _ => None,
        }
    }

    /// The numeric payload as an `i64`.
    pub fn as_i64(&self) -> (r: Option<i64>)
        ensures
            match r {
                Some(v) => *self == JsonValue::Int(v) || (*self == JsonValue::UInt(v as u64)
                    && v >= 0),
                None => !(*self is Int) && (*self is UInt ==> self->UInt_0 > i64::MAX),
            },
    {
        match self {
            JsonValue::Int(v) => Some(*v),
            JsonValue::UInt(v) => if *v <= i64::MAX as u64 {
                Some(*v as i64)
            } else {
                None
            },
            _ => None,
        }
    }
}

/// The error shape the server uses: an object carrying a string `status`,
/// a numeric `id` and a string `message`.
pub open spec fn is_error_shape(v: JsonValue) -> bool {
    &&& v is Obj
    &&& lookup_first(v->Obj_0@, "status"@) matches Some(s) && s is Str
    &&& lookup_first(v->Obj_0@, "id"@) matches Some(i) && i is UInt
    &&& lookup_first(v->Obj_0@, "message"@) matches Some(m) && m is Str
}

/// Splits a response payload into the endpoint-error shape and the success
/// shape, probing for the error shape first.
pub fn classify_response(v: JsonValue) -> (r: EndpointResponse<JsonValue>)
    ensures
        is_error_shape(v) ==> (r matches EndpointResponse::Error(e)
            && JsonValue::Str(e.status) == lookup_first(v->Obj_0@, "status"@)->0
            && JsonValue::UInt(e.id) == lookup_first(v->Obj_0@, "id"@)->0
            && JsonValue::Str(e.message) == lookup_first(v->Obj_0@, "message"@)->0),
        !is_error_shape(v) ==> r == EndpointResponse::Success(v),
{
    let error = match &v {
        JsonValue::Obj(pairs) => {
            let status = match obj_get(pairs, "status") {
                Some(JsonValue::Str(s)) => Some(s.clone()),
                _ => None,
            };
            let id = match obj_get(pairs, "id") {
                Some(JsonValue::UInt(i)) => Some(*i),
                _ => None,
            };
            let message = match obj_get(pairs, "message") {
                Some(JsonValue::Str(m)) => Some(m.clone()),
                _ => None,
            };
            match (status, id, message) {
                (Some(status), Some(id), Some(message)) => Some(
                    EndpointError { status, id, message },
                ),
                _ => None,
            }
        },
        _ => None,
    };
    match error {
        Some(e) => EndpointResponse::Error(e),
        None => EndpointResponse::Success(v),
    }
}

} // verus!
