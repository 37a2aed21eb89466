//! The password API: data shapes and wire calls for password records.

use vstd::prelude::*;
use crate::Error;
use crate::builder::{EntityBuilder, builder_pairs};
use crate::crud::{Request, Verb, is_identifier_shape, is_trashed_shape, revision_entry};
use crate::json::{JsonValue, lookup_first};
use crate::schema::{FieldDef, FieldType, FieldTag, Mode, Schema, SchemaError, field_def, unique_names};
use crate::search::{EntitySearch, sparse_pairs_match};

verus! {

/// Which optional details a read operation should include.
#[derive(Clone, Copy, Debug, PartialEq, Eq, Structural)]
pub struct Details {
    pub revisions: bool,
    pub folder: bool,
    pub tags: bool,
    pub shares: bool,
}

/// The single wire token of a detail level: `model` plus one `+flag` suffix
/// per requested detail, in a fixed order; absent flags are omitted.
pub open spec fn detail_token_spec(d: Details) -> Seq<char> {
    "model"@ +
        (if d.revisions { "+revisions"@ } else { Seq::<char>::empty() }) +
        (if d.folder { "+folder"@ } else { Seq::<char>::empty() }) +
        (if d.tags { "+tags"@ } else { Seq::<char>::empty() }) +
        (if d.shares { "+shares"@ } else { Seq::<char>::empty() })
}

impl Details {
    /// The base detail level: just the model.
    pub fn new() -> (r: Details)
        ensures
            r.revisions == false,
            r.folder == false,
            r.tags == false,
            r.shares == false,
    {
        Details { revisions: false, folder: false, tags: false, shares: false }
    }

    /// Requests the `revisions` detail in the response models.
    pub fn revisions(self) -> (r: Details)
        ensures
            r.revisions == true,
            r.folder == self.folder,
            r.tags == self.tags,
            r.shares == self.shares,
    {
        Details { revisions: true, ..self }
    }

    /// Requests the `folder` detail in the response models.
    pub fn folder(self) -> (r: Details)
        ensures
            r.folder == true,
            r.revisions == self.revisions,
            r.tags == self.tags,
            r.shares == self.shares,
    {
        Details { folder: true, ..self }
    }

    /// Requests the `tags` detail in the response models.
    pub fn tags(self) -> (r: Details)
        ensures
            r.tags == true,
            r.revisions == self.revisions,
            r.folder == self.folder,
            r.shares == self.shares,
    {
        Details { tags: true, ..self }
    }

    /// Requests the `shares` detail in the response models.
    pub fn shares(self) -> (r: Details)
        ensures
            r.shares == true,
            r.revisions == self.revisions,
            r.folder == self.folder,
            r.tags == self.tags,
    {
        Details { shares: true, ..self }
    }

    /// Collapses the detail level to its wire token.
    pub fn detail_token(&self) -> (r: String)
        ensures
            r@ == detail_token_spec(*self),
    {
        let mut s = "model".to_owned();
        if self.revisions {
            s.append("+revisions");
        }
        if self.folder {
            s.append("+folder");
        }
        if self.tags {
            s.append("+tags");
        }
        if self.shares {
            s.append("+shares");
        }
        proof {
            assert(s@ =~= detail_token_spec(*self));
        }
        s
    }
}

/// Identifies a record by its id and its current revision; both are always
/// present after a create, update or restore.
#[derive(Debug, PartialEq)]
pub struct PasswordIdentifier {
    pub id: String,
    pub revision: String,
}

/// Identifies a trashed record when the revision is present, and a
/// permanently deleted one when it is not.
#[derive(Debug, PartialEq)]
pub struct TrashedIdentifier {
    pub id: String,
    pub revision: Option<String>,
}

/// Reads the write-result shape `{id, revision}`.
pub fn identifier_from_json(v: &JsonValue) -> (r: Result<PasswordIdentifier, Error>)
    ensures
        r is Ok <==> is_identifier_shape(*v),
        r matches Ok(p) ==> lookup_first(v->Obj_0@, "id"@) == Some(JsonValue::Str(p.id))
            && lookup_first(v->Obj_0@, "revision"@) == Some(JsonValue::Str(p.revision)),
        r is Err ==> r == Err::<PasswordIdentifier, Error>(Error::Decode),
{
    match crate::crud::parse_identifier(v) {
        Ok((id, revision)) => Ok(PasswordIdentifier { id, revision }),
        Err(e) => Err(e),
    }
}

/// Reads the delete-result shape `{id, revision?}`.
pub fn trashed_from_json(v: &JsonValue) -> (r: Result<TrashedIdentifier, Error>)
    ensures
        r is Ok <==> is_trashed_shape(*v),
        r matches Ok(p) ==> lookup_first(v->Obj_0@, "id"@) == Some(JsonValue::Str(p.id))
            && match p.revision {
                Some(rev) => lookup_first(v->Obj_0@, "revision"@) == Some(JsonValue::Str(rev)),
                None => !(lookup_first(v->Obj_0@, "revision"@) matches Some(x) && x is Str),
            },
        r is Err ==> r == Err::<TrashedIdentifier, Error>(Error::Decode),
{
    match crate::crud::parse_trashed(v) {
        Ok((id, revision)) => Ok(TrashedIdentifier { id, revision }),
        Err(e) => Err(e),
    }
}

/// Either the bare identifier of the related folder or its embedded model:
/// the two representations the wire format uses interchangeably.
#[derive(Debug, PartialEq)]
pub enum FolderInfoKind {
    Id(String),
    Data(JsonValue),
}

/// The relation to a folder, as an identifier or an embedded model.
#[derive(Debug)]
pub struct FolderInfo(FolderInfoKind);

impl FolderInfo {
    /// Which representation the relation uses.
    pub closed spec fn kind_spec(&self) -> FolderInfoKind {
        self.0
    }

    /// A relation by bare identifier.
    pub fn new(id: String) -> (r: FolderInfo)
        ensures
            r.kind_spec() == FolderInfoKind::Id(id),
    {
        FolderInfo(FolderInfoKind::Id(id))
    }

    /// The representation of this relation.
    pub fn get(&self) -> (r: &FolderInfoKind)
        ensures
            *r == self.kind_spec(),
    {
        &self.0
    }

    /// The wire value: the bare identifier as a string, the embedded model
    /// as it stands.
    pub fn to_json(self) -> (r: JsonValue)
        ensures
            match self.kind_spec() {
                FolderInfoKind::Id(s) => r == JsonValue::Str(s),
                FolderInfoKind::Data(v) => r == v,
            },
    {
        match self.0 {
            FolderInfoKind::Id(s) => JsonValue::Str(s),
            FolderInfoKind::Data(v) => v,
        }
    }

    /// Reads the wire value: a string is an identifier, anything else is an
    /// embedded model.
    pub fn from_json(v: JsonValue) -> (r: FolderInfo)
        ensures
            v matches JsonValue::Str(s) ==> r.kind_spec() == FolderInfoKind::Id(s),
            !(v is Str) ==> r.kind_spec() == FolderInfoKind::Data(v),
    {
        match v {
            JsonValue::Str(s) => FolderInfo(FolderInfoKind::Id(s)),
            other => FolderInfo(FolderInfoKind::Data(other)),
        }
    }
}

/// The declared field list of this entity.
pub open spec fn schema_fields_spec(s: Seq<FieldDef>) -> bool {
    &&& s.len() == 28
    &&& s[0].name@ == "label"@ && s[0].ty == FieldType::Text && s[0].tag == (
    FieldTag { create: Mode::Required, update: Mode::Required, versioned: true, searchable: false })
    &&& s[1].name@ == "username"@ && s[1].ty == FieldType::Text && s[1].tag == (
    FieldTag { create: Mode::Optional, update: Mode::Optional, versioned: true, searchable: false })
    &&& s[2].name@ == "password"@ && s[2].ty == FieldType::Text && s[2].tag == (
    FieldTag { create: Mode::Required, update: Mode::Required, versioned: true, searchable: false })
    &&& s[3].name@ == "url"@ && s[3].ty == FieldType::Text && s[3].tag == (
    FieldTag { create: Mode::Optional, update: Mode::Optional, versioned: true, searchable: false })
    &&& s[4].name@ == "notes"@ && s[4].ty == FieldType::Text && s[4].tag == (
    FieldTag { create: Mode::Optional, update: Mode::Optional, versioned: true, searchable: false })
    &&& s[5].name@ == "customFields"@ && s[5].ty == FieldType::Text && s[5].tag == (
    FieldTag { create: Mode::Optional, update: Mode::Optional, versioned: true, searchable: false })
    &&& s[6].name@ == "hash"@ && s[6].ty == FieldType::Text && s[6].tag == (
    FieldTag { create: Mode::Required, update: Mode::Required, versioned: true, searchable: false })
    &&& s[7].name@ == "cseType"@ && s[7].ty == FieldType::Text && s[7].tag == (
    FieldTag { create: Mode::Optional, update: Mode::Optional, versioned: true, searchable: true })
    &&& s[8].name@ == "cseKey"@ && s[8].ty == FieldType::Text && s[8].tag == (
    FieldTag { create: Mode::Optional, update: Mode::Optional, versioned: true, searchable: false })
    &&& s[9].name@ == "sseType"@ && s[9].ty == FieldType::Text && s[9].tag == (
    FieldTag { create: Mode::Absent, update: Mode::Absent, versioned: true, searchable: true })
    &&& s[10].name@ == "hidden"@ && s[10].ty == FieldType::Boolean && s[10].tag == (
    FieldTag { create: Mode::Optional, update: Mode::Optional, versioned: true, searchable: false })
    &&& s[11].name@ == "favorite"@ && s[11].ty == FieldType::Boolean && s[11].tag == (
    FieldTag { create: Mode::Optional, update: Mode::Optional, versioned: true, searchable: true })
    &&& s[12].name@ == "edited"@ && s[12].ty == FieldType::Integer && s[12].tag == (
    FieldTag { create: Mode::Optional, update: Mode::Optional, versioned: true, searchable: true })
    &&& s[13].name@ == "trashed"@ && s[13].ty == FieldType::Boolean && s[13].tag == (
    FieldTag { create: Mode::Absent, update: Mode::Absent, versioned: true, searchable: true })
    &&& s[14].name@ == "updated"@ && s[14].ty == FieldType::Integer && s[14].tag == (
    FieldTag { create: Mode::Absent, update: Mode::Absent, versioned: true, searchable: true })
    &&& s[15].name@ == "client"@ && s[15].ty == FieldType::Text && s[15].tag == (
    FieldTag { create: Mode::Absent, update: Mode::Absent, versioned: true, searchable: false })
    &&& s[16].name@ == "status"@ && s[16].ty == FieldType::Structured && s[16].tag == (
    FieldTag { create: Mode::Absent, update: Mode::Absent, versioned: true, searchable: true })
    &&& s[17].name@ == "statusCode"@ && s[17].ty == FieldType::Structured && s[17].tag == (
    FieldTag { create: Mode::Absent, update: Mode::Absent, versioned: true, searchable: false })
    &&& s[18].name@ == "id"@ && s[18].ty == FieldType::Identifier && s[18].tag == (
    FieldTag { create: Mode::Absent, update: Mode::Required, versioned: false, searchable: false })
    &&& s[19].name@ == "revision"@ && s[19].ty == FieldType::Identifier && s[19].tag == (
    FieldTag { create: Mode::Absent, update: Mode::Absent, versioned: false, searchable: false })
    &&& s[20].name@ == "share"@ && s[20].ty == FieldType::Structured && s[20].tag == (
    FieldTag { create: Mode::Absent, update: Mode::Absent, versioned: false, searchable: false })
    &&& s[21].name@ == "shared"@ && s[21].ty == FieldType::Boolean && s[21].tag == (
    FieldTag { create: Mode::Absent, update: Mode::Absent, versioned: false, searchable: false })
    &&& s[22].name@ == "editable"@ && s[22].ty == FieldType::Boolean && s[22].tag == (
    FieldTag { create: Mode::Absent, update: Mode::Absent, versioned: false, searchable: false })
    &&& s[23].name@ == "created"@ && s[23].ty == FieldType::Integer && s[23].tag == (
    FieldTag { create: Mode::Absent, update: Mode::Absent, versioned: false, searchable: true })
    &&& s[24].name@ == "folder"@ && s[24].ty == FieldType::Structured && s[24].tag == (
    FieldTag { create: Mode::Optional, update: Mode::Optional, versioned: false, searchable: false })
    &&& s[25].name@ == "tags"@ && s[25].ty == FieldType::Structured && s[25].tag == (
    FieldTag { create: Mode::Absent, update: Mode::Absent, versioned: false, searchable: false })
    &&& s[26].name@ == "shares"@ && s[26].ty == FieldType::Structured && s[26].tag == (
    FieldTag { create: Mode::Absent, update: Mode::Absent, versioned: false, searchable: false })
    &&& s[27].name@ == "revisions"@ && s[27].ty == FieldType::Structured && s[27].tag == (
    FieldTag { create: Mode::Absent, update: Mode::Absent, versioned: false, searchable: false })
}

/// Declares this entity's schema: its ordered, tagged field list.  The
/// declaration is statically known to be valid: the field names are
/// pairwise distinct.
pub fn schema() -> (r: Result<Schema, SchemaError>)
    ensures
        r is Ok,
        r matches Ok(s) ==> s.wf() && schema_fields_spec(s.fields@),
{
    let fields = vec![
        field_def("label", FieldType::Text, Mode::Required, Mode::Required, true, false),
        field_def("username", FieldType::Text, Mode::Optional, Mode::Optional, true, false),
        field_def("password", FieldType::Text, Mode::Required, Mode::Required, true, false),
        field_def("url", FieldType::Text, Mode::Optional, Mode::Optional, true, false),
        field_def("notes", FieldType::Text, Mode::Optional, Mode::Optional, true, false),
        field_def("customFields", FieldType::Text, Mode::Optional, Mode::Optional, true, false),
        field_def("hash", FieldType::Text, Mode::Required, Mode::Required, true, false),
        field_def("cseType", FieldType::Text, Mode::Optional, Mode::Optional, true, true),
        field_def("cseKey", FieldType::Text, Mode::Optional, Mode::Optional, true, false),
        field_def("sseType", FieldType::Text, Mode::Absent, Mode::Absent, true, true),
        field_def("hidden", FieldType::Boolean, Mode::Optional, Mode::Optional, true, false),
        field_def("favorite", FieldType::Boolean, Mode::Optional, Mode::Optional, true, true),
        field_def("edited", FieldType::Integer, Mode::Optional, Mode::Optional, true, true),
        field_def("trashed", FieldType::Boolean, Mode::Absent, Mode::Absent, true, true),
        field_def("updated", FieldType::Integer, Mode::Absent, Mode::Absent, true, true),
        field_def("client", FieldType::Text, Mode::Absent, Mode::Absent, true, false),
        field_def("status", FieldType::Structured, Mode::Absent, Mode::Absent, true, true),
        field_def("statusCode", FieldType::Structured, Mode::Absent, Mode::Absent, true, false),
        field_def("id", FieldType::Identifier, Mode::Absent, Mode::Required, false, false),
        field_def("revision", FieldType::Identifier, Mode::Absent, Mode::Absent, false, false),
        field_def("share", FieldType::Structured, Mode::Absent, Mode::Absent, false, false),
        field_def("shared", FieldType::Boolean, Mode::Absent, Mode::Absent, false, false),
        field_def("editable", FieldType::Boolean, Mode::Absent, Mode::Absent, false, false),
        field_def("created", FieldType::Integer, Mode::Absent, Mode::Absent, false, true),
        field_def("folder", FieldType::Structured, Mode::Optional, Mode::Optional, false, false),
        field_def("tags", FieldType::Structured, Mode::Absent, Mode::Absent, false, false),
        field_def("shares", FieldType::Structured, Mode::Absent, Mode::Absent, false, false),
        field_def("revisions", FieldType::Structured, Mode::Absent, Mode::Absent, false, false),
    ];
    proof {
        reveal_strlit("label");
        reveal_strlit("username");
        reveal_strlit("password");
        reveal_strlit("url");
        reveal_strlit("notes");
        reveal_strlit("customFields");
        reveal_strlit("hash");
        reveal_strlit("cseType");
        reveal_strlit("cseKey");
        reveal_strlit("sseType");
        reveal_strlit("hidden");
        reveal_strlit("favorite");
        reveal_strlit("edited");
        reveal_strlit("trashed");
        reveal_strlit("updated");
        reveal_strlit("client");
        reveal_strlit("status");
        reveal_strlit("statusCode");
        reveal_strlit("id");
        reveal_strlit("revision");
        reveal_strlit("share");
        reveal_strlit("shared");
        reveal_strlit("editable");
        reveal_strlit("created");
        reveal_strlit("folder");
        reveal_strlit("tags");
        reveal_strlit("shares");
        reveal_strlit("revisions");
        assert(("label")@.len() == 5);
        assert(("username")@.len() == 8);
        assert(("password")@.len() == 8);
        assert(("url")@.len() == 3);
        assert(("notes")@.len() == 5);
        assert(("customFields")@.len() == 12);
        assert(("hash")@.len() == 4);
        assert(("cseType")@.len() == 7);
        assert(("cseKey")@.len() == 6);
        assert(("sseType")@.len() == 7);
        assert(("hidden")@.len() == 6);
        assert(("favorite")@.len() == 8);
        assert(("edited")@.len() == 6);
        assert(("trashed")@.len() == 7);
        assert(("updated")@.len() == 7);
        assert(("client")@.len() == 6);
        assert(("status")@.len() == 6);
        assert(("statusCode")@.len() == 10);
        assert(("id")@.len() == 2);
        assert(("revision")@.len() == 8);
        assert(("share")@.len() == 5);
        assert(("shared")@.len() == 6);
        assert(("editable")@.len() == 8);
        assert(("created")@.len() == 7);
        assert(("folder")@.len() == 6);
        assert(("tags")@.len() == 4);
        assert(("shares")@.len() == 6);
        assert(("revisions")@.len() == 9);
        assert(("label")@[0] != ("notes")@[0]);
        assert(("label")@[0] != ("share")@[0]);
        assert(("username")@[0] != ("password")@[0]);
        assert(("username")@[0] != ("favorite")@[0]);
        assert(("username")@[0] != ("revision")@[0]);
        assert(("username")@[0] != ("editable")@[0]);
        assert(("password")@[0] != ("favorite")@[0]);
        assert(("password")@[0] != ("revision")@[0]);
        assert(("password")@[0] != ("editable")@[0]);
        assert(("notes")@[0] != ("share")@[0]);
        assert(("hash")@[0] != ("tags")@[0]);
        assert(("cseType")@[0] != ("sseType")@[0]);
        assert(("cseType")@[0] != ("trashed")@[0]);
        assert(("cseType")@[0] != ("updated")@[0]);
        assert(("cseType")@[1] != ("created")@[1]);
        assert(("cseKey")@[0] != ("hidden")@[0]);
        assert(("cseKey")@[0] != ("edited")@[0]);
        assert(("cseKey")@[1] != ("client")@[1]);
        assert(("cseKey")@[0] != ("status")@[0]);
        assert(("cseKey")@[0] != ("shared")@[0]);
        assert(("cseKey")@[0] != ("folder")@[0]);
        assert(("cseKey")@[0] != ("shares")@[0]);
        assert(("sseType")@[0] != ("trashed")@[0]);
        assert(("sseType")@[0] != ("updated")@[0]);
        assert(("sseType")@[0] != ("created")@[0]);
        assert(("hidden")@[0] != ("edited")@[0]);
        assert(("hidden")@[0] != ("client")@[0]);
        assert(("hidden")@[0] != ("status")@[0]);
        assert(("hidden")@[0] != ("shared")@[0]);
        assert(("hidden")@[0] != ("folder")@[0]);
        assert(("hidden")@[0] != ("shares")@[0]);
        assert(("favorite")@[0] != ("revision")@[0]);
        assert(("favorite")@[0] != ("editable")@[0]);
        assert(("edited")@[0] != ("client")@[0]);
        assert(("edited")@[0] != ("status")@[0]);
        assert(("edited")@[0] != ("shared")@[0]);
        assert(("edited")@[0] != ("folder")@[0]);
        assert(("edited")@[0] != ("shares")@[0]);
        assert(("trashed")@[0] != ("updated")@[0]);
        assert(("trashed")@[0] != ("created")@[0]);
        assert(("updated")@[0] != ("created")@[0]);
        assert(("client")@[0] != ("status")@[0]);
        assert(("client")@[0] != ("shared")@[0]);
        assert(("client")@[0] != ("folder")@[0]);
        assert(("client")@[0] != ("shares")@[0]);
        assert(("status")@[1] != ("shared")@[1]);
        assert(("status")@[0] != ("folder")@[0]);
        assert(("status")@[1] != ("shares")@[1]);
        assert(("revision")@[0] != ("editable")@[0]);
        assert(("shared")@[0] != ("folder")@[0]);
        assert(("shared")@[5] != ("shares")@[5]);
        assert(("folder")@[0] != ("shares")@[0]);
        assert forall|i: int, j: int|
            0 <= i < j < fields@.len() implies (#[trigger] fields@[i].name)@ != (
        #[trigger] fields@[j].name)@ by {
        }
        assert(unique_names(fields@));
    }
    Schema::new(fields)
}

/// Lists all records except the trashed and the hidden ones, as the server
/// filters them.
pub fn list_request(details: Option<Details>) -> (r: Request)
    ensures
        r.verb == Verb::Post,
        r.path@ == "1.0/password"@ + "/list"@,
        r.body matches JsonValue::Obj(ps) && (match details {
            None => ps@.len() == 0,
            Some(d) => ps@.len() == 1 && ps@[0].0@ == "details"@ && (
            ps@[0].1 matches JsonValue::Str(t) && t@ == detail_token_spec(d)),
        }),
{
    crate::crud::list_request("1.0/password", detail_opt(details))
}

/// Shows a single record; the only operation that can read hidden records.
pub fn show_request(id: String, details: Option<Details>) -> (r: Request)
    ensures
        r.verb == Verb::Post,
        r.path@ == "1.0/password"@ + "/show"@,
        r.body matches JsonValue::Obj(ps) && ps@.len() >= 1 && ps@[0].0@ == "id"@ && ps@[0].1
            == JsonValue::Str(id) && (match details {
            None => ps@.drop_first().len() == 0,
            Some(d) => ps@.drop_first().len() == 1 && ps@.drop_first()[0].0@ == "details"@ && (
            ps@.drop_first()[0].1 matches JsonValue::Str(t) && t@ == detail_token_spec(d)),
        }),
{
    crate::crud::show_request("1.0/password", id, detail_opt(details))
}

/// Finds the records matching the given sparse criteria.
pub fn find_request(criteria: EntitySearch, details: Option<Details>) -> (r: Request)
    requires
        criteria.wf(),
    ensures
        r.verb == Verb::Post,
        r.path@ == "1.0/password"@ + "/find"@,
        r.body matches JsonValue::Obj(ps) && ps@.len() >= 1 && ps@[0].0@ == "criteria"@ && (
        ps@[0].1 matches JsonValue::Obj(cs) && sparse_pairs_match(
            criteria.names@,
            criteria.criteria@,
            cs@,
            0,
        )) && (match details {
            None => ps@.drop_first().len() == 0,
            Some(d) => ps@.drop_first().len() == 1 && ps@.drop_first()[0].0@ == "details"@ && (
            ps@.drop_first()[0].1 matches JsonValue::Str(t) && t@ == detail_token_spec(d)),
        }),
{
    crate::crud::find_request("1.0/password", criteria, detail_opt(details))
}

/// Creates a new record from a create builder; the server assigns the id
/// and the first revision.
pub fn create_request(value: EntityBuilder) -> (r: Request)
    requires
        value.wf(),
    ensures
        r.verb == Verb::Post,
        r.path@ == "1.0/password"@ + "/create"@,
        r.body matches JsonValue::Obj(ps) && ps@ == builder_pairs(value),
{
    crate::crud::create_request("1.0/password", value)
}

/// Updates a record from an update builder, always creating a new revision.
pub fn update_request(value: EntityBuilder) -> (r: Request)
    requires
        value.wf(),
    ensures
        r.verb == Verb::Post,
        r.path@ == "1.0/password"@ + "/update"@,
        r.body matches JsonValue::Obj(ps) && ps@ == builder_pairs(value),
{
    crate::crud::update_request("1.0/password", value)
}

/// Moves a record to the trash, or deletes it permanently when it is
/// already there.  With an expected revision set, a stale revision makes
/// the server reject the call and nothing changes.
pub fn delete_request(id: String, revision: Option<String>) -> (r: Request)
    ensures
        r.verb == Verb::Delete,
        r.path@ == "1.0/password"@ + "/delete"@,
        r.body matches JsonValue::Obj(ps) && ps@.len() >= 1 && ps@[0].0@ == "id"@ && ps@[0].1
            == JsonValue::Str(id) && revision_entry(ps@.drop_first(), revision),
{
    crate::crud::delete_request("1.0/password", id, revision)
}

/// Restores an earlier state of a record, always creating a new revision.
/// Without a target revision, a record not in the trash is left as it is.
pub fn restore_request(id: String, revision: Option<String>) -> (r: Request)
    ensures
        r.verb == Verb::Patch,
        r.path@ == "1.0/password"@ + "/restore"@,
        r.body matches JsonValue::Obj(ps) && ps@.len() >= 1 && ps@[0].0@ == "id"@ && ps@[0].1
            == JsonValue::Str(id) && revision_entry(ps@.drop_first(), revision),
{
    crate::crud::restore_request("1.0/password", id, revision)
}

fn detail_opt(details: Option<Details>) -> (r: Option<String>)
    ensures
        match details {
            None => r is None,
            Some(d) => r matches Some(t) && t@ == detail_token_spec(d),
        },
{
    match details {
        Some(d) => Some(d.detail_token()),
        None => None,
    }
}

/// The security status level of a password, carried on the wire as a
/// number.
#[derive(Clone, Copy, Debug, PartialEq, Eq, Structural)]
pub enum SecurityStatus {
    Good,
    UserRulesViolated,
    Breached,
}

impl SecurityStatus {
    /// The wire number of this status.
    pub fn code(&self) -> (r: u8)
        ensures
            *self == SecurityStatus::Good <==> r == 0,
            *self == SecurityStatus::UserRulesViolated <==> r == 1,
            *self == SecurityStatus::Breached <==> r == 2,
    {
        match self {
            SecurityStatus::Good => 0,
            SecurityStatus::UserRulesViolated => 1,
            SecurityStatus::Breached => 2,
        }
    }

    /// The status a wire number denotes.
    pub fn from_code(code: u8) -> (r: Option<SecurityStatus>)
        ensures
            code == 0 ==> r == Some(SecurityStatus::Good),
            code == 1 ==> r == Some(SecurityStatus::UserRulesViolated),
            code == 2 ==> r == Some(SecurityStatus::Breached),
            code > 2 ==> r is None,
    {
        match code {
            0 => Some(SecurityStatus::Good),
            1 => Some(SecurityStatus::UserRulesViolated),
            2 => Some(SecurityStatus::Breached),
            _ => None,
        }
    }
}

/// The specific code behind the current security status.
#[derive(Clone, Copy, Debug, PartialEq, Eq, Structural)]
pub enum StatusCode {
    Good,
    Outdated,
    Duplicate,
    Breached,
}

/// The wire name of a status code.
pub open spec fn status_code_name(c: StatusCode) -> Seq<char> {
    match c {
        StatusCode::Good => "GOOD"@,
        StatusCode::Outdated => "OUTDATED"@,
        StatusCode::Duplicate => "DUPLICATE"@,
        StatusCode::Breached => "BREACHED"@,
    }
}

impl StatusCode {
    /// The wire name of this status code.
    pub fn as_str(&self) -> (r: &'static str)
        ensures
            r@ == status_code_name(*self),
    {
        match self {
            StatusCode::Good => "GOOD",
            StatusCode::Outdated => "OUTDATED",
            StatusCode::Duplicate => "DUPLICATE",
            StatusCode::Breached => "BREACHED",
        }
    }

    /// The status code a wire name denotes.
    pub fn from_name(s: &str) -> (r: Option<StatusCode>)
        ensures
            match r {
                Some(c) => s@ == status_code_name(c),
                None => forall|c: StatusCode| s@ != status_code_name(c),
            },
    {
        if crate::text::str_eq(s, "GOOD") {
            Some(StatusCode::Good)
        } else if crate::text::str_eq(s, "OUTDATED") {
            Some(StatusCode::Outdated)
        } else if crate::text::str_eq(s, "DUPLICATE") {
            Some(StatusCode::Duplicate)
        } else if crate::text::str_eq(s, "BREACHED") {
            Some(StatusCode::Breached)
        } else {
            proof {
                assert forall|c: StatusCode| s@ != status_code_name(c) by {
                    match c {
                        StatusCode::Good => assert(s@ != "GOOD"@),
                        StatusCode::Outdated => assert(s@ != "OUTDATED"@),
                        StatusCode::Duplicate => assert(s@ != "DUPLICATE"@),
                        StatusCode::Breached => assert(s@ != "BREACHED"@),
                    }
                }
            }
            None
        }
    }
}

} // verus!
