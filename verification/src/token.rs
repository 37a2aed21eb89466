//! The token API: requesting a second-factor token to be sent to the user.

use vstd::prelude::*;
use crate::Error;
use crate::crud::{Request, Verb};
use crate::json::{JsonValue, lookup_first};

verus! {

/// The result of a token request: whether it was sent, and provider data.
#[derive(Debug, PartialEq)]
pub struct Response {
    pub success: bool,
    pub data: JsonValue,
}

/// The request-token call for one provider.  It is recommended to call this
/// only for the token the user has chosen.
pub fn token_request(provider: &str) -> (r: Request)
    ensures
        r.verb == Verb::Get,
        r.path@ == "1.0/token/"@ + provider@ + "/request"@,
        r.body == JsonValue::Null,
{
    let mut path = "1.0/token/".to_owned();
    path.append(provider);
    path.append("/request");
    Request { verb: Verb::Get, path, body: JsonValue::Null }
}

/// The payload shape of a token-request result: a boolean `success` and a
/// `data` entry of any shape.
pub open spec fn is_token_response_shape(v: JsonValue) -> bool {
    &&& v is Obj
    &&& lookup_first(v->Obj_0@, "success"@) matches Some(s) && s is Bool
    &&& lookup_first(v->Obj_0@, "data"@) is Some
}

/// Reads a token-request result.
pub fn response_from_json(v: JsonValue) -> (r: Result<Response, Error>)
    ensures
        r is Ok <==> is_token_response_shape(v),
        r matches Ok(t) ==> lookup_first(v->Obj_0@, "success"@) == Some(JsonValue::Bool(t.success))
            && lookup_first(v->Obj_0@, "data"@) == Some(t.data),
        r is Err ==> r == Err::<Response, Error>(Error::Decode),
{
    let mut pairs = match v {
        JsonValue::Obj(pairs) => pairs,
        _ => {
            return Err(Error::Decode);
        },
    };
    let success = match crate::json::obj_get(&pairs, "success") {
        Some(JsonValue::Bool(b)) => *b,
        _ => {
            return Err(Error::Decode);
        },
    };
    let ghost orig = pairs@;
    let mut data: Option<JsonValue> = None;
    while pairs.len() > 0
        invariant
            v is Obj && v->Obj_0@ == orig,
            pairs@ == orig.take(pairs@.len() as int),
            pairs@.len() <= orig.len(),
            match data {
                Some(d) => lookup_first(orig.skip(pairs@.len() as int), "data"@) == Some(d),
                None => lookup_first(orig.skip(pairs@.len() as int), "data"@) is None,
            },
        decreases pairs@.len(),
    {
        let ghost m = pairs@.len() as int;
        let p = pairs.pop().unwrap();
        proof {
            assert(orig.take(m)[m - 1] == orig[m - 1]);
            assert(pairs@ =~= orig.take(m - 1));
            assert(orig.skip(m - 1) =~= seq![orig[m - 1]] + orig.skip(m));
            assert((seq![orig[m - 1]] + orig.skip(m)).drop_first() =~= orig.skip(m));
        }
        if crate::text::str_eq(p.0.as_str(), "data") {
            data = Some(p.1);
        }
    }
    proof {
        assert(orig.skip(0) =~= orig);
    }
    match data {
        Some(d) => Ok(Response { success, data: d }),
        None => Err(Error::Decode),
    }
}

} // verus!
