//! The uniform CRUD call surface.
//!
//! Given an entity's endpoint path prefix and its builder, search and record
//! shapes, every operation maps to one wire call with a fixed path suffix
//! and a fixed verb, and a uniformly shaped request body.  The response side
//! parses the shared identifier shapes and entity lists.

use vstd::prelude::*;
use crate::Error;
use crate::builder::{EntityBuilder, builder_pairs};
use crate::json::{JsonValue, count_key, lookup_first};
use crate::record::EntityRecord;
use crate::schema::Schema;
use crate::search::{EntitySearch, sparse_pairs_match};

verus! {

/// The HTTP verb of a wire call.
#[derive(Clone, Copy, Debug, PartialEq, Eq, Structural)]
pub enum Verb {
    Get,
    Post,
    Delete,
    Patch,
}

/// One wire call, ready for a transport: verb, path relative to the API
/// root, and JSON body.
#[derive(Debug, PartialEq)]
pub struct Request {
    pub verb: Verb,
    pub path: String,
    pub body: JsonValue,
}

/// Concatenates an endpoint prefix and a fixed suffix.
pub fn join_path(prefix: &str, suffix: &str) -> (r: String)
    ensures
        r@ == prefix@ + suffix@,
{
    prefix.to_owned().concat(suffix)
}

/// The optional detail-level entry of a request body: nothing when no
/// detail level is given, one string entry otherwise.
pub open spec fn details_entry(pairs: Seq<(String, JsonValue)>, details: Option<String>) -> bool {
    match details {
        Some(d) => pairs.len() == 1 && pairs[0].0@ == "details"@ && pairs[0].1 == JsonValue::Str(d),
        None => pairs.len() == 0,
    }
}

fn details_vec(details: Option<String>) -> (r: Vec<(String, JsonValue)>)
    ensures
        details_entry(r@, details),
{
    match details {
        Some(d) => vec![("details".to_owned(), JsonValue::Str(d))],
        None => Vec::new(),
    }
}

/// The optional expected-revision entry of a request body.
pub open spec fn revision_entry(pairs: Seq<(String, JsonValue)>, revision: Option<String>) -> bool {
    match revision {
        Some(rev) => pairs.len() == 1 && pairs[0].0@ == "revision"@ && pairs[0].1 == JsonValue::Str(
            rev,
        ),
        None => pairs.len() == 0,
    }
}

fn revision_vec(revision: Option<String>) -> (r: Vec<(String, JsonValue)>)
    ensures
        revision_entry(r@, revision),
{
    match revision {
        Some(rev) => vec![("revision".to_owned(), JsonValue::Str(rev))],
        None => Vec::new(),
    }
}

/// The list call: one POST to `<prefix>/list`, carrying only the optional
/// detail level.  An absent detail level is omitted, not sent as null.
pub fn list_request(prefix: &str, details: Option<String>) -> (r: Request)
    ensures
        r.verb == Verb::Post,
        r.path@ == prefix@ + "/list"@,
        r.body matches JsonValue::Obj(ps) && details_entry(ps@, details),
{
    Request {
        verb: Verb::Post,
        path: join_path(prefix, "/list"),
        body: JsonValue::Obj(details_vec(details)),
    }
}

/// The show call: one POST to `<prefix>/show`, carrying the record's id and
/// the optional detail level.
pub fn show_request(prefix: &str, id: String, details: Option<String>) -> (r: Request)
    ensures
        r.verb == Verb::Post,
        r.path@ == prefix@ + "/show"@,
        r.body matches JsonValue::Obj(ps) && ps@.len() >= 1 && ps@[0].0@ == "id"@ && ps@[0].1
            == JsonValue::Str(id) && details_entry(ps@.drop_first(), details),
{
    let mut pairs: Vec<(String, JsonValue)> = vec![("id".to_owned(), JsonValue::Str(id))];
    let mut rest = details_vec(details);
    let ghost head = pairs@;
    let ghost tail = rest@;
    pairs.append(&mut rest);
    proof {
        assert(pairs@.drop_first() =~= tail);
    }
    Request { verb: Verb::Post, path: join_path(prefix, "/show"), body: JsonValue::Obj(pairs) }
}

/// The find call: one POST to `<prefix>/find`, carrying the sparse search
/// criteria and the optional detail level.
pub fn find_request(prefix: &str, criteria: EntitySearch, details: Option<String>) -> (r: Request)
    requires
        criteria.wf(),
    ensures
        r.verb == Verb::Post,
        r.path@ == prefix@ + "/find"@,
        r.body matches JsonValue::Obj(ps) && ps@.len() >= 1 && ps@[0].0@ == "criteria"@ && (
        ps@[0].1 matches JsonValue::Obj(cs) && sparse_pairs_match(
            criteria.names@,
            criteria.criteria@,
            cs@,
            0,
        )) && details_entry(ps@.drop_first(), details),
{
    let criteria_json = criteria.to_json();
    let mut pairs: Vec<(String, JsonValue)> = vec![("criteria".to_owned(), criteria_json)];
    let mut rest = details_vec(details);
    let ghost tail = rest@;
    pairs.append(&mut rest);
    proof {
        assert(pairs@.drop_first() =~= tail);
    }
    Request { verb: Verb::Post, path: join_path(prefix, "/find"), body: JsonValue::Obj(pairs) }
}

/// The create call: one POST to `<prefix>/create`, whose body is exactly the
/// create builder's wire object.
pub fn create_request(prefix: &str, value: EntityBuilder) -> (r: Request)
    requires
        value.wf(),
    ensures
        r.verb == Verb::Post,
        r.path@ == prefix@ + "/create"@,
        r.body matches JsonValue::Obj(ps) && ps@ == builder_pairs(value),
{
    Request { verb: Verb::Post, path: join_path(prefix, "/create"), body: value.to_json() }
}

/// The update call: one POST to `<prefix>/update`, whose body is exactly the
/// update builder's wire object.  An update always creates a new revision on
/// the server; it never mutates a record in place.
pub fn update_request(prefix: &str, value: EntityBuilder) -> (r: Request)
    requires
        value.wf(),
    ensures
        r.verb == Verb::Post,
        r.path@ == prefix@ + "/update"@,
        r.body matches JsonValue::Obj(ps) && ps@ == builder_pairs(value),
{
    Request { verb: Verb::Post, path: join_path(prefix, "/update"), body: value.to_json() }
}

/// The delete call: one DELETE to `<prefix>/delete`, carrying the id and the
/// optional expected revision.  When the expected revision is stale, the
/// server rejects the call with an endpoint error and no state changes; the
/// revision guard is the optimistic-concurrency check.
pub fn delete_request(prefix: &str, id: String, revision: Option<String>) -> (r: Request)
    ensures
        r.verb == Verb::Delete,
        r.path@ == prefix@ + "/delete"@,
        r.body matches JsonValue::Obj(ps) && ps@.len() >= 1 && ps@[0].0@ == "id"@ && ps@[0].1
            == JsonValue::Str(id) && revision_entry(ps@.drop_first(), revision),
{
    let mut pairs: Vec<(String, JsonValue)> = vec![("id".to_owned(), JsonValue::Str(id))];
    let mut rest = revision_vec(revision);
    let ghost tail = rest@;
    pairs.append(&mut rest);
    proof {
        assert(pairs@.drop_first() =~= tail);
    }
    Request { verb: Verb::Delete, path: join_path(prefix, "/delete"), body: JsonValue::Obj(pairs) }
}

/// The restore call: one PATCH to `<prefix>/restore`, carrying the id and
/// the optional target revision.
pub fn restore_request(prefix: &str, id: String, revision: Option<String>) -> (r: Request)
    ensures
        r.verb == Verb::Patch,
        r.path@ == prefix@ + "/restore"@,
        r.body matches JsonValue::Obj(ps) && ps@.len() >= 1 && ps@[0].0@ == "id"@ && ps@[0].1
            == JsonValue::Str(id) && revision_entry(ps@.drop_first(), revision),
{
    let mut pairs: Vec<(String, JsonValue)> = vec![("id".to_owned(), JsonValue::Str(id))];
    let mut rest = revision_vec(revision);
    let ghost tail = rest@;
    pairs.append(&mut rest);
    proof {
        assert(pairs@.drop_first() =~= tail);
    }
    Request { verb: Verb::Patch, path: join_path(prefix, "/restore"), body: JsonValue::Obj(pairs) }
}

/// The payload is an object whose `id` and `revision` entries are strings.
pub open spec fn is_identifier_shape(v: JsonValue) -> bool {
    &&& v is Obj
    &&& lookup_first(v->Obj_0@, "id"@) matches Some(x) && x is Str
    &&& lookup_first(v->Obj_0@, "revision"@) matches Some(x) && x is Str
}

/// Parses the shared write-result shape `{id, revision}`, the result of
/// create, update and restore: the server assigns both and the revision is
/// always present.
pub fn parse_identifier(v: &JsonValue) -> (r: Result<(String, String), Error>)
    ensures
        r is Ok <==> is_identifier_shape(*v),
        r matches Ok(p) ==> lookup_first(v->Obj_0@, "id"@) == Some(JsonValue::Str(p.0))
            && lookup_first(v->Obj_0@, "revision"@) == Some(JsonValue::Str(p.1)),
        r is Err ==> r == Err::<(String, String), Error>(Error::Decode),
{
    match v {
        JsonValue::Obj(pairs) => {
            let id = match crate::json::obj_get(pairs, "id") {
                Some(JsonValue::Str(s)) => s.clone(),
                _ => {
                    return Err(Error::Decode);
                },
            };
            let revision = match crate::json::obj_get(pairs, "revision") {
                Some(JsonValue::Str(s)) => s.clone(),
                _ => {
                    return Err(Error::Decode);
                },
            };
            Ok((id, revision))
        },
        _ => Err(Error::Decode),
    }
}

/// The payload is an object with a string `id` and a `revision` entry that
/// is a string, null, or absent.
pub open spec fn is_trashed_shape(v: JsonValue) -> bool {
    &&& v is Obj
    &&& lookup_first(v->Obj_0@, "id"@) matches Some(x) && x is Str
    &&& match lookup_first(v->Obj_0@, "revision"@) {
        Some(x) => x is Str || x is Null,
        None => true,
    }
}

/// Parses the delete-result shape `{id, revision?}`: the revision is present
/// exactly when the record is now in the trash rather than permanently
/// removed.
pub fn parse_trashed(v: &JsonValue) -> (r: Result<(String, Option<String>), Error>)
    ensures
        r is Ok <==> is_trashed_shape(*v),
        r matches Ok(p) ==> lookup_first(v->Obj_0@, "id"@) == Some(JsonValue::Str(p.0)) && match p.1 {
            Some(rev) => lookup_first(v->Obj_0@, "revision"@) == Some(JsonValue::Str(rev)),
            None => !(lookup_first(v->Obj_0@, "revision"@) matches Some(x) && x is Str),
        },
        r is Err ==> r == Err::<(String, Option<String>), Error>(Error::Decode),
{
    match v {
        JsonValue::Obj(pairs) => {
            let id = match crate::json::obj_get(pairs, "id") {
                Some(JsonValue::Str(s)) => s.clone(),
                _ => {
                    return Err(Error::Decode);
                },
            };
            let revision = match crate::json::obj_get(pairs, "revision") {
                Some(JsonValue::Str(s)) => Some(s.clone()),
                Some(JsonValue::Null) => None,
                None => None,
                _ => {
                    return Err(Error::Decode);
                },
            };
            Ok((id, revision))
        },
        _ => Err(Error::Decode),
    }
}

/// Parses the bare-id result shape `{id}`.
pub fn parse_id_only(v: &JsonValue) -> (r: Result<String, Error>)
    ensures
        r is Ok <==> (*v is Obj && (lookup_first(v->Obj_0@, "id"@) matches Some(x) && x is Str)),
        r matches Ok(id) ==> lookup_first(v->Obj_0@, "id"@) == Some(JsonValue::Str(id)),
        r is Err ==> r == Err::<String, Error>(Error::Decode),
{
    match v {
        JsonValue::Obj(pairs) => {
            match crate::json::obj_get(pairs, "id") {
                Some(JsonValue::Str(s)) => Ok(s.clone()),
                _ => Err(Error::Decode),
            }
        },
        _ => Err(Error::Decode),
    }
}

/// Every element of the array is an object in which every schema field
/// occurs exactly once.
pub open spec fn is_record_list(schema: Schema, v: JsonValue) -> bool {
    &&& v is Arr
    &&& forall|k: int|
        0 <= k < v->Arr_0@.len() ==> (#[trigger] v->Arr_0@[k]) is Obj && forall|i: int|
            0 <= i < schema.fields@.len() ==> count_key(
                v->Arr_0@[k]->Obj_0@,
                (#[trigger] schema.fields@[i].name)@,
            ) == 1
}

/// Parses a list response: an ordered array of flat record objects.  An
/// empty array parses to an empty ordered sequence, never an error.
pub fn parse_record_list(schema: &Schema, v: JsonValue) -> (r: Result<Vec<EntityRecord>, Error>)
    requires
        schema.wf(),
    ensures
        r is Ok <==> is_record_list(*schema, v),
        r matches Ok(rs) ==> {
            &&& rs@.len() == v->Arr_0@.len()
            &&& forall|k: int|
                0 <= k < rs@.len() ==> (#[trigger] rs@[k]).wf(*schema) && forall|i: int|
                    0 <= i < schema.fields@.len() ==> Some(#[trigger] rs@[k].values@[i])
                        == lookup_first(v->Arr_0@[k]->Obj_0@, schema.fields@[i].name@)
        },
        r is Err ==> r == Err::<Vec<EntityRecord>, Error>(Error::Decode),
{
    let mut items = match v {
        JsonValue::Arr(items) => items,
        _ => {
            return Err(Error::Decode);
        },
    };
    let ghost orig = items@;
    let mut out: Vec<EntityRecord> = Vec::new();
    proof {
        assert(orig.skip(0) =~= orig);
    }
    while items.len() > 0
        invariant
            schema.wf(),
            v is Arr && v->Arr_0@ == orig,
            items@ == orig.skip(orig.len() - items@.len()),
            items@.len() <= orig.len(),
            out@.len() == orig.len() - items@.len(),
            forall|k: int|
                0 <= k < out@.len() ==> (#[trigger] orig[k]) is Obj && (forall|i: int|
                    0 <= i < schema.fields@.len() ==> count_key(
                        orig[k]->Obj_0@,
                        (#[trigger] schema.fields@[i].name)@,
                    ) == 1),
            forall|k: int|
                0 <= k < out@.len() ==> (#[trigger] out@[k]).wf(*schema) && forall|i: int|
                    0 <= i < schema.fields@.len() ==> Some(#[trigger] out@[k].values@[i])
                        == lookup_first(orig[k]->Obj_0@, schema.fields@[i].name@),
        decreases items@.len(),
    {
        let ghost processed = orig.len() - items@.len();
        let item = items.remove(0);
        proof {
            assert(orig.skip(processed)[0] == orig[processed]);
            assert(orig.skip(processed).drop_first() =~= orig.skip(processed + 1));
        }
        let pairs = match item {
            JsonValue::Obj(pairs) => pairs,
            _ => {
                proof {
                    assert(!((v->Arr_0@[processed]) is Obj));
                }
                return Err(Error::Decode);
            },
        };
        match EntityRecord::decode(schema, pairs) {
            Ok(rec) => {
                out.push(rec);
            },
            Err(_) => {
                proof {
                    assert((v->Arr_0@[processed]) is Obj);
                    assert(!(forall|i: int|
                        0 <= i < schema.fields@.len() ==> count_key(
                            v->Arr_0@[processed]->Obj_0@,
                            (#[trigger] schema.fields@[i].name)@,
                        ) == 1));
                }
                return Err(Error::Decode);
            },
        }
    }
    proof {
        assert(out@.len() == orig.len());
    }
    Ok(out)
}

} // verus!
