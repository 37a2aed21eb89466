//! The tag API: data shapes and wire calls for tag records.

use vstd::prelude::*;
use crate::Error;
use crate::builder::{EntityBuilder, builder_pairs};
use crate::crud::{Request, Verb, is_identifier_shape, is_trashed_shape, revision_entry};
use crate::json::{JsonValue, lookup_first};
use crate::schema::{FieldDef, FieldType, FieldTag, Mode, Schema, SchemaError, field_def, unique_names};
use crate::search::{EntitySearch, sparse_pairs_match};

verus! {

/// Which optional details a read operation should include.
#[derive(Clone, Copy, Debug, PartialEq, Eq, Structural)]
pub struct Details {
    pub revisions: bool,
    pub passwords: bool,
}

/// The single wire token of a detail level: `model` plus one `+flag` suffix
/// per requested detail, in a fixed order; absent flags are omitted.
pub open spec fn detail_token_spec(d: Details) -> Seq<char> {
    "model"@ +
        (if d.revisions { "+revisions"@ } else { Seq::<char>::empty() }) +
        (if d.passwords { "+passwords"@ } else { Seq::<char>::empty() })
}

impl Details {
    /// The base detail level: just the model.
    pub fn new() -> (r: Details)
        ensures
            r.revisions == false,
            r.passwords == false,
    {
        Details { revisions: false, passwords: false }
    }

    /// Requests the `revisions` detail in the response models.
    pub fn revisions(self) -> (r: Details)
        ensures
            r.revisions == true,
            r.passwords == self.passwords,
    {
        Details { revisions: true, ..self }
    }

    /// Requests the `passwords` detail in the response models.
    pub fn passwords(self) -> (r: Details)
        ensures
            r.passwords == true,
            r.revisions == self.revisions,
    {
        Details { passwords: true, ..self }
    }

    /// Collapses the detail level to its wire token.
    pub fn detail_token(&self) -> (r: String)
        ensures
            r@ == detail_token_spec(*self),
    {
        let mut s = "model".to_owned();
        if self.revisions {
            s.append("+revisions");
        }
        if self.passwords {
            s.append("+passwords");
        }
        proof {
            assert(s@ =~= detail_token_spec(*self));
        }
        s
    }
}

/// Identifies a record by its id and its current revision; both are always
/// present after a create, update or restore.
#[derive(Debug, PartialEq)]
pub struct TagIdentifier {
    pub id: String,
    pub revision: String,
}

/// Identifies a trashed record when the revision is present, and a
/// permanently deleted one when it is not.
#[derive(Debug, PartialEq)]
pub struct TrashedIdentifier {
    pub id: String,
    pub revision: Option<String>,
}

/// Reads the write-result shape `{id, revision}`.
pub fn identifier_from_json(v: &JsonValue) -> (r: Result<TagIdentifier, Error>)
    ensures
        r is Ok <==> is_identifier_shape(*v),
        r matches Ok(p) ==> lookup_first(v->Obj_0@, "id"@) == Some(JsonValue::Str(p.id))
            && lookup_first(v->Obj_0@, "revision"@) == Some(JsonValue::Str(p.revision)),
        r is Err ==> r == Err::<TagIdentifier, Error>(Error::Decode),
{
    match crate::crud::parse_identifier(v) {
        Ok((id, revision)) => Ok(TagIdentifier { id, revision }),
        Err(e) => Err(e),
    }
}

/// Reads the delete-result shape `{id, revision?}`.
pub fn trashed_from_json(v: &JsonValue) -> (r: Result<TrashedIdentifier, Error>)
    ensures
        r is Ok <==> is_trashed_shape(*v),
        r matches Ok(p) ==> lookup_first(v->Obj_0@, "id"@) == Some(JsonValue::Str(p.id))
            && match p.revision {
                Some(rev) => lookup_first(v->Obj_0@, "revision"@) == Some(JsonValue::Str(rev)),
                None => !(lookup_first(v->Obj_0@, "revision"@) matches Some(x) && x is Str),
            },
        r is Err ==> r == Err::<TrashedIdentifier, Error>(Error::Decode),
{
    match crate::crud::parse_trashed(v) {
        Ok((id, revision)) => Ok(TrashedIdentifier { id, revision }),
        Err(e) => Err(e),
    }
}

/// The declared field list of this entity.
pub open spec fn schema_fields_spec(s: Seq<FieldDef>) -> bool {
    &&& s.len() == 15
    &&& s[0].name@ == "id"@ && s[0].ty == FieldType::Text && s[0].tag == (
    FieldTag { create: Mode::Absent, update: Mode::Required, versioned: false, searchable: false })
    &&& s[1].name@ == "label"@ && s[1].ty == FieldType::Text && s[1].tag == (
    FieldTag { create: Mode::Required, update: Mode::Required, versioned: true, searchable: false })
    &&& s[2].name@ == "color"@ && s[2].ty == FieldType::Structured && s[2].tag == (
    FieldTag { create: Mode::Required, update: Mode::Required, versioned: true, searchable: false })
    &&& s[3].name@ == "created"@ && s[3].ty == FieldType::Unsigned && s[3].tag == (
    FieldTag { create: Mode::Absent, update: Mode::Absent, versioned: false, searchable: true })
    &&& s[4].name@ == "updated"@ && s[4].ty == FieldType::Unsigned && s[4].tag == (
    FieldTag { create: Mode::Absent, update: Mode::Absent, versioned: true, searchable: true })
    &&& s[5].name@ == "edited"@ && s[5].ty == FieldType::Unsigned && s[5].tag == (
    FieldTag { create: Mode::Optional, update: Mode::Optional, versioned: true, searchable: true })
    &&& s[6].name@ == "revision"@ && s[6].ty == FieldType::Identifier && s[6].tag == (
    FieldTag { create: Mode::Absent, update: Mode::Absent, versioned: true, searchable: false })
    &&& s[7].name@ == "cseType"@ && s[7].ty == FieldType::Text && s[7].tag == (
    FieldTag { create: Mode::Optional, update: Mode::Optional, versioned: true, searchable: true })
    &&& s[8].name@ == "cseKey"@ && s[8].ty == FieldType::Text && s[8].tag == (
    FieldTag { create: Mode::Optional, update: Mode::Optional, versioned: true, searchable: false })
    &&& s[9].name@ == "sseType"@ && s[9].ty == FieldType::Text && s[9].tag == (
    FieldTag { create: Mode::Absent, update: Mode::Absent, versioned: true, searchable: true })
    &&& s[10].name@ == "client"@ && s[10].ty == FieldType::Text && s[10].tag == (
    FieldTag { create: Mode::Absent, update: Mode::Absent, versioned: true, searchable: false })
    &&& s[11].name@ == "hidden"@ && s[11].ty == FieldType::Boolean && s[11].tag == (
    FieldTag { create: Mode::Optional, update: Mode::Optional, versioned: true, searchable: false })
    &&& s[12].name@ == "trashed"@ && s[12].ty == FieldType::Boolean && s[12].tag == (
    FieldTag { create: Mode::Absent, update: Mode::Absent, versioned: true, searchable: true })
    &&& s[13].name@ == "favorite"@ && s[13].ty == FieldType::Boolean && s[13].tag == (
    FieldTag { create: Mode::Optional, update: Mode::Optional, versioned: true, searchable: true })
    &&& s[14].name@ == "revisions"@ && s[14].ty == FieldType::Structured && s[14].tag == (
    FieldTag { create: Mode::Absent, update: Mode::Absent, versioned: false, searchable: false })
}

/// Declares this entity's schema: its ordered, tagged field list.  The
/// declaration is statically known to be valid: the field names are
/// pairwise distinct.
pub fn schema() -> (r: Result<Schema, SchemaError>)
    ensures
        r is Ok,
        r matches Ok(s) ==> s.wf() && schema_fields_spec(s.fields@),
{
    let fields = vec![
        field_def("id", FieldType::Text, Mode::Absent, Mode::Required, false, false),
        field_def("label", FieldType::Text, Mode::Required, Mode::Required, true, false),
        field_def("color", FieldType::Structured, Mode::Required, Mode::Required, true, false),
        field_def("created", FieldType::Unsigned, Mode::Absent, Mode::Absent, false, true),
        field_def("updated", FieldType::Unsigned, Mode::Absent, Mode::Absent, true, true),
        field_def("edited", FieldType::Unsigned, Mode::Optional, Mode::Optional, true, true),
        field_def("revision", FieldType::Identifier, Mode::Absent, Mode::Absent, true, false),
        field_def("cseType", FieldType::Text, Mode::Optional, Mode::Optional, true, true),
        field_def("cseKey", FieldType::Text, Mode::Optional, Mode::Optional, true, false),
        field_def("sseType", FieldType::Text, Mode::Absent, Mode::Absent, true, true),
        field_def("client", FieldType::Text, Mode::Absent, Mode::Absent, true, false),
        field_def("hidden", FieldType::Boolean, Mode::Optional, Mode::Optional, true, false),
        field_def("trashed", FieldType::Boolean, Mode::Absent, Mode::Absent, true, true),
        field_def("favorite", FieldType::Boolean, Mode::Optional, Mode::Optional, true, true),
        field_def("revisions", FieldType::Structured, Mode::Absent, Mode::Absent, false, false),
    ];
    proof {
        reveal_strlit("id");
        reveal_strlit("label");
        reveal_strlit("color");
        reveal_strlit("created");
        reveal_strlit("updated");
        reveal_strlit("edited");
        reveal_strlit("revision");
        reveal_strlit("cseType");
        reveal_strlit("cseKey");
        reveal_strlit("sseType");
        reveal_strlit("client");
        reveal_strlit("hidden");
        reveal_strlit("trashed");
        reveal_strlit("favorite");
        reveal_strlit("revisions");
        assert(("id")@.len() == 2);
        assert(("label")@.len() == 5);
        assert(("color")@.len() == 5);
        assert(("created")@.len() == 7);
        assert(("updated")@.len() == 7);
        assert(("edited")@.len() == 6);
        assert(("revision")@.len() == 8);
        assert(("cseType")@.len() == 7);
        assert(("cseKey")@.len() == 6);
        assert(("sseType")@.len() == 7);
        assert(("client")@.len() == 6);
        assert(("hidden")@.len() == 6);
        assert(("trashed")@.len() == 7);
        assert(("favorite")@.len() == 8);
        assert(("revisions")@.len() == 9);
        assert(("label")@[0] != ("color")@[0]);
        assert(("created")@[0] != ("updated")@[0]);
        assert(("created")@[1] != ("cseType")@[1]);
        assert(("created")@[0] != ("sseType")@[0]);
        assert(("created")@[0] != ("trashed")@[0]);
        assert(("updated")@[0] != ("cseType")@[0]);
        assert(("updated")@[0] != ("sseType")@[0]);
        assert(("updated")@[0] != ("trashed")@[0]);
        assert(("edited")@[0] != ("cseKey")@[0]);
        assert(("edited")@[0] != ("client")@[0]);
        assert(("edited")@[0] != ("hidden")@[0]);
        assert(("revision")@[0] != ("favorite")@[0]);
        assert(("cseType")@[0] != ("sseType")@[0]);
        assert(("cseType")@[0] != ("trashed")@[0]);
        assert(("cseKey")@[1] != ("client")@[1]);
        assert(("cseKey")@[0] != ("hidden")@[0]);
        assert(("sseType")@[0] != ("trashed")@[0]);
        assert(("client")@[0] != ("hidden")@[0]);
        assert forall|i: int, j: int|
            0 <= i < j < fields@.len() implies (#[trigger] fields@[i].name)@ != (
        #[trigger] fields@[j].name)@ by {
        }
        assert(unique_names(fields@));
    }
    Schema::new(fields)
}

/// Lists all records except the trashed and the hidden ones, as the server
/// filters them.
pub fn list_request(details: Option<Details>) -> (r: Request)
    ensures
        r.verb == Verb::Post,
        r.path@ == "1.0/tag"@ + "/list"@,
        r.body matches JsonValue::Obj(ps) && (match details {
            None => ps@.len() == 0,
            Some(d) => ps@.len() == 1 && ps@[0].0@ == "details"@ && (
            ps@[0].1 matches JsonValue::Str(t) && t@ == detail_token_spec(d)),
        }),
{
    crate::crud::list_request("1.0/tag", detail_opt(details))
}

/// Shows a single record; the only operation that can read hidden records.
pub fn show_request(id: String, details: Option<Details>) -> (r: Request)
    ensures
        r.verb == Verb::Post,
        r.path@ == "1.0/tag"@ + "/show"@,
        r.body matches JsonValue::Obj(ps) && ps@.len() >= 1 && ps@[0].0@ == "id"@ && ps@[0].1
            == JsonValue::Str(id) && (match details {
            None => ps@.drop_first().len() == 0,
            Some(d) => ps@.drop_first().len() == 1 && ps@.drop_first()[0].0@ == "details"@ && (
            ps@.drop_first()[0].1 matches JsonValue::Str(t) && t@ == detail_token_spec(d)),
        }),
{
    crate::crud::show_request("1.0/tag", id, detail_opt(details))
}

/// Finds the records matching the given sparse criteria.
pub fn find_request(criteria: EntitySearch, details: Option<Details>) -> (r: Request)
    requires
        criteria.wf(),
    ensures
        r.verb == Verb::Post,
        r.path@ == "1.0/tag"@ + "/find"@,
        r.body matches JsonValue::Obj(ps) && ps@.len() >= 1 && ps@[0].0@ == "criteria"@ && (
        ps@[0].1 matches JsonValue::Obj(cs) && sparse_pairs_match(
            criteria.names@,
            criteria.criteria@,
            cs@,
            0,
        )) && (match details {
            None => ps@.drop_first().len() == 0,
            Some(d) => ps@.drop_first().len() == 1 && ps@.drop_first()[0].0@ == "details"@ && (
            ps@.drop_first()[0].1 matches JsonValue::Str(t) && t@ == detail_token_spec(d)),
        }),
{
    crate::crud::find_request("1.0/tag", criteria, detail_opt(details))
}

/// Creates a new record from a create builder; the server assigns the id
/// and the first revision.
pub fn create_request(value: EntityBuilder) -> (r: Request)
    requires
        value.wf(),
    ensures
        r.verb == Verb::Post,
        r.path@ == "1.0/tag"@ + "/create"@,
        r.body matches JsonValue::Obj(ps) && ps@ == builder_pairs(value),
{
    crate::crud::create_request("1.0/tag", value)
}

/// Updates a record from an update builder, always creating a new revision.
pub fn update_request(value: EntityBuilder) -> (r: Request)
    requires
        value.wf(),
    ensures
        r.verb == Verb::Post,
        r.path@ == "1.0/tag"@ + "/update"@,
        r.body matches JsonValue::Obj(ps) && ps@ == builder_pairs(value),
{
    crate::crud::update_request("1.0/tag", value)
}

/// Moves a record to the trash, or deletes it permanently when it is
/// already there.  With an expected revision set, a stale revision makes
/// the server reject the call and nothing changes.
pub fn delete_request(id: String, revision: Option<String>) -> (r: Request)
    ensures
        r.verb == Verb::Delete,
        r.path@ == "1.0/tag"@ + "/delete"@,
        r.body matches JsonValue::Obj(ps) && ps@.len() >= 1 && ps@[0].0@ == "id"@ && ps@[0].1
            == JsonValue::Str(id) && revision_entry(ps@.drop_first(), revision),
{
    crate::crud::delete_request("1.0/tag", id, revision)
}

/// Restores an earlier state of a record, always creating a new revision.
/// Without a target revision, a record not in the trash is left as it is.
pub fn restore_request(id: String, revision: Option<String>) -> (r: Request)
    ensures
        r.verb == Verb::Patch,
        r.path@ == "1.0/tag"@ + "/restore"@,
        r.body matches JsonValue::Obj(ps) && ps@.len() >= 1 && ps@[0].0@ == "id"@ && ps@[0].1
            == JsonValue::Str(id) && revision_entry(ps@.drop_first(), revision),
{
    crate::crud::restore_request("1.0/tag", id, revision)
}

fn detail_opt(details: Option<Details>) -> (r: Option<String>)
    ensures
        match details {
            None => r is None,
            Some(d) => r matches Some(t) && t@ == detail_token_spec(d),
        },
{
    match details {
        Some(d) => Some(d.detail_token()),
        None => None,
    }
}


} // verus!
