//! The folder API: data shapes and wire calls for folder records.

use vstd::prelude::*;
use crate::Error;
use crate::builder::{EntityBuilder, builder_pairs};
use crate::crud::{Request, Verb, is_identifier_shape, is_trashed_shape, revision_entry};
use crate::json::{JsonValue, lookup_first};
use crate::schema::{FieldDef, FieldType, FieldTag, Mode, Schema, SchemaError, field_def, unique_names};
use crate::search::{EntitySearch, sparse_pairs_match};

verus! {

/// Which optional details a read operation should include.
#[derive(Clone, Copy, Debug, PartialEq, Eq, Structural)]
pub struct Details {
    pub revisions: bool,
    pub parent: bool,
    pub folders: bool,
    pub passwords: bool,
    pub tags: bool,
}

/// The single wire token of a detail level: `model` plus one `+flag` suffix
/// per requested detail, in a fixed order; absent flags are omitted.
pub open spec fn detail_token_spec(d: Details) -> Seq<char> {
    "model"@ +
        (if d.revisions { "+revisions"@ } else { Seq::<char>::empty() }) +
        (if d.parent { "+parent"@ } else { Seq::<char>::empty() }) +
        (if d.folders { "+folders"@ } else { Seq::<char>::empty() }) +
        (if d.passwords { "+passwords"@ } else { Seq::<char>::empty() }) +
        (if d.tags { "+tags"@ } else { Seq::<char>::empty() })
}

impl Details {
    /// The base detail level: just the model.
    pub fn new() -> (r: Details)
        ensures
            r.revisions == false,
            r.parent == false,
            r.folders == false,
            r.passwords == false,
            r.tags == false,
    {
        Details { revisions: false, parent: false, folders: false, passwords: false, tags: false }
    }

    /// Requests the `revisions` detail in the response models.
    pub fn revisions(self) -> (r: Details)
        ensures
            r.revisions == true,
            r.parent == self.parent,
            r.folders == self.folders,
            r.passwords == self.passwords,
            r.tags == self.tags,
    {
        Details { revisions: true, ..self }
    }

    /// Requests the `parent` detail in the response models.
    pub fn parent(self) -> (r: Details)
        ensures
            r.parent == true,
            r.revisions == self.revisions,
            r.folders == self.folders,
            r.passwords == self.passwords,
            r.tags == self.tags,
    {
        Details { parent: true, ..self }
    }

    /// Requests the `folders` detail in the response models.
    pub fn folders(self) -> (r: Details)
        ensures
            r.folders == true,
            r.revisions == self.revisions,
            r.parent == self.parent,
            r.passwords == self.passwords,
            r.tags == self.tags,
    {
        Details { folders: true, ..self }
    }

    /// Requests the `passwords` detail in the response models.
    pub fn passwords(self) -> (r: Details)
        ensures
            r.passwords == true,
            r.revisions == self.revisions,
            r.parent == self.parent,
            r.folders == self.folders,
            r.tags == self.tags,
    {
        Details { passwords: true, ..self }
    }

    /// Requests the `tags` detail in the response models.
    pub fn tags(self) -> (r: Details)
        ensures
            r.tags == true,
            r.revisions == self.revisions,
            r.parent == self.parent,
            r.folders == self.folders,
            r.passwords == self.passwords,
    {
        Details { tags: true, ..self }
    }

    /// Collapses the detail level to its wire token.
    pub fn detail_token(&self) -> (r: String)
        ensures
            r@ == detail_token_spec(*self),
    {
        let mut s = "model".to_owned();
        if self.revisions {
            s.append("+revisions");
        }
        if self.parent {
            s.append("+parent");
        }
        if self.folders {
            s.append("+folders");
        }
        if self.passwords {
            s.append("+passwords");
        }
        if self.tags {
            s.append("+tags");
        }
        proof {
            assert(s@ =~= detail_token_spec(*self));
        }
        s
    }
}

/// Identifies a record by its id and its current revision; both are always
/// present after a create, update or restore.
#[derive(Debug, PartialEq)]
pub struct FolderIdentifier {
    pub id: String,
    pub revision: String,
}

/// Identifies a trashed record when the revision is present, and a
/// permanently deleted one when it is not.
#[derive(Debug, PartialEq)]
pub struct TrashedIdentifier {
    pub id: String,
    pub revision: Option<String>,
}

/// Reads the write-result shape `{id, revision}`.
pub fn identifier_from_json(v: &JsonValue) -> (r: Result<FolderIdentifier, Error>)
    ensures
        r is Ok <==> is_identifier_shape(*v),
        r matches Ok(p) ==> lookup_first(v->Obj_0@, "id"@) == Some(JsonValue::Str(p.id))
            && lookup_first(v->Obj_0@, "revision"@) == Some(JsonValue::Str(p.revision)),
        r is Err ==> r == Err::<FolderIdentifier, Error>(Error::Decode),
{
    match crate::crud::parse_identifier(v) {
        Ok((id, revision)) => Ok(FolderIdentifier { id, revision }),
        Err(e) => Err(e),
    }
}

/// Reads the delete-result shape `{id, revision?}`.
pub fn trashed_from_json(v: &JsonValue) -> (r: Result<TrashedIdentifier, Error>)
    ensures
        r is Ok <==> is_trashed_shape(*v),
        r matches Ok(p) ==> lookup_first(v->Obj_0@, "id"@) == Some(JsonValue::Str(p.id))
            && match p.revision {
                Some(rev) => lookup_first(v->Obj_0@, "revision"@) == Some(JsonValue::Str(rev)),
                None => !(lookup_first(v->Obj_0@, "revision"@) matches Some(x) && x is Str),
            },
        r is Err ==> r == Err::<TrashedIdentifier, Error>(Error::Decode),
{
    match crate::crud::parse_trashed(v) {
        Ok((id, revision)) => Ok(TrashedIdentifier { id, revision }),
        Err(e) => Err(e),
    }
}

/// Either the bare identifier of the related parent folder or its embedded model:
/// the two representations the wire format uses interchangeably.
#[derive(Debug, PartialEq)]
pub enum ParentInfoKind {
    Id(String),
    Data(JsonValue),
}

/// The relation to a parent folder, as an identifier or an embedded model.
#[derive(Debug)]
pub struct ParentInfo(ParentInfoKind);

impl ParentInfo {
    /// Which representation the relation uses.
    pub closed spec fn kind_spec(&self) -> ParentInfoKind {
        self.0
    }

    /// A relation by bare identifier.
    pub fn new(id: String) -> (r: ParentInfo)
        ensures
            r.kind_spec() == ParentInfoKind::Id(id),
    {
        ParentInfo(ParentInfoKind::Id(id))
    }

    /// The representation of this relation.
    pub fn get(&self) -> (r: &ParentInfoKind)
        ensures
            *r == self.kind_spec(),
    {
        &self.0
    }

    /// The wire value: the bare identifier as a string, the embedded model
    /// as it stands.
    pub fn to_json(self) -> (r: JsonValue)
        ensures
            match self.kind_spec() {
                ParentInfoKind::Id(s) => r == JsonValue::Str(s),
                ParentInfoKind::Data(v) => r == v,
            },
    {
        match self.0 {
            ParentInfoKind::Id(s) => JsonValue::Str(s),
            ParentInfoKind::Data(v) => v,
        }
    }

    /// Reads the wire value: a string is an identifier, anything else is an
    /// embedded model.
    pub fn from_json(v: JsonValue) -> (r: ParentInfo)
        ensures
            v matches JsonValue::Str(s) ==> r.kind_spec() == ParentInfoKind::Id(s),
            !(v is Str) ==> r.kind_spec() == ParentInfoKind::Data(v),
    {
        match v {
            JsonValue::Str(s) => ParentInfo(ParentInfoKind::Id(s)),
            other => ParentInfo(ParentInfoKind::Data(other)),
        }
    }
}

/// The declared field list of this entity.
pub open spec fn schema_fields_spec(s: Seq<FieldDef>) -> bool {
    &&& s.len() == 17
    &&& s[0].name@ == "id"@ && s[0].ty == FieldType::Identifier && s[0].tag == (
    FieldTag { create: Mode::Absent, update: Mode::Required, versioned: false, searchable: false })
    &&& s[1].name@ == "label"@ && s[1].ty == FieldType::Text && s[1].tag == (
    FieldTag { create: Mode::Required, update: Mode::Required, versioned: true, searchable: false })
    &&& s[2].name@ == "parent"@ && s[2].ty == FieldType::Structured && s[2].tag == (
    FieldTag { create: Mode::Optional, update: Mode::Optional, versioned: true, searchable: true })
    &&& s[3].name@ == "created"@ && s[3].ty == FieldType::Unsigned && s[3].tag == (
    FieldTag { create: Mode::Absent, update: Mode::Absent, versioned: false, searchable: true })
    &&& s[4].name@ == "updated"@ && s[4].ty == FieldType::Unsigned && s[4].tag == (
    FieldTag { create: Mode::Absent, update: Mode::Absent, versioned: true, searchable: true })
    &&& s[5].name@ == "edited"@ && s[5].ty == FieldType::Unsigned && s[5].tag == (
    FieldTag { create: Mode::Absent, update: Mode::Optional, versioned: true, searchable: false })
    &&& s[6].name@ == "revision"@ && s[6].ty == FieldType::Identifier && s[6].tag == (
    FieldTag { create: Mode::Absent, update: Mode::Absent, versioned: true, searchable: false })
    &&& s[7].name@ == "cseType"@ && s[7].ty == FieldType::Text && s[7].tag == (
    FieldTag { create: Mode::Optional, update: Mode::Optional, versioned: true, searchable: true })
    &&& s[8].name@ == "cseKey"@ && s[8].ty == FieldType::Text && s[8].tag == (
    FieldTag { create: Mode::Optional, update: Mode::Optional, versioned: true, searchable: false })
    &&& s[9].name@ == "sseType"@ && s[9].ty == FieldType::Text && s[9].tag == (
    FieldTag { create: Mode::Absent, update: Mode::Absent, versioned: true, searchable: true })
    &&& s[10].name@ == "client"@ && s[10].ty == FieldType::Text && s[10].tag == (
    FieldTag { create: Mode::Absent, update: Mode::Absent, versioned: true, searchable: false })
    &&& s[11].name@ == "hidden"@ && s[11].ty == FieldType::Boolean && s[11].tag == (
    FieldTag { create: Mode::Optional, update: Mode::Optional, versioned: true, searchable: false })
    &&& s[12].name@ == "trashed"@ && s[12].ty == FieldType::Boolean && s[12].tag == (
    FieldTag { create: Mode::Absent, update: Mode::Absent, versioned: true, searchable: true })
    &&& s[13].name@ == "favorite"@ && s[13].ty == FieldType::Boolean && s[13].tag == (
    FieldTag { create: Mode::Optional, update: Mode::Optional, versioned: true, searchable: true })
    &&& s[14].name@ == "revisions"@ && s[14].ty == FieldType::Structured && s[14].tag == (
    FieldTag { create: Mode::Absent, update: Mode::Absent, versioned: false, searchable: false })
    &&& s[15].name@ == "folders"@ && s[15].ty == FieldType::Structured && s[15].tag == (
    FieldTag { create: Mode::Absent, update: Mode::Absent, versioned: false, searchable: false })
    &&& s[16].name@ == "passwords"@ && s[16].ty == FieldType::Structured && s[16].tag == (
    FieldTag { create: Mode::Absent, update: Mode::Absent, versioned: false, searchable: false })
}

/// Declares this entity's schema: its ordered, tagged field list.  The
/// declaration is statically known to be valid: the field names are
/// pairwise distinct.
pub fn schema() -> (r: Result<Schema, SchemaError>)
    ensures
        r is Ok,
        r matches Ok(s) ==> s.wf() && schema_fields_spec(s.fields@),
{
    let fields = vec![
        field_def("id", FieldType::Identifier, Mode::Absent, Mode::Required, false, false),
        field_def("label", FieldType::Text, Mode::Required, Mode::Required, true, false),
        field_def("parent", FieldType::Structured, Mode::Optional, Mode::Optional, true, true),
        field_def("created", FieldType::Unsigned, Mode::Absent, Mode::Absent, false, true),
        field_def("updated", FieldType::Unsigned, Mode::Absent, Mode::Absent, true, true),
        field_def("edited", FieldType::Unsigned, Mode::Absent, Mode::Optional, true, false),
        field_def("revision", FieldType::Identifier, Mode::Absent, Mode::Absent, true, false),
        field_def("cseType", FieldType::Text, Mode::Optional, Mode::Optional, true, true),
        field_def("cseKey", FieldType::Text, Mode::Optional, Mode::Optional, true, false),
        field_def("sseType", FieldType::Text, Mode::Absent, Mode::Absent, true, true),
        field_def("client", FieldType::Text, Mode::Absent, Mode::Absent, true, false),
        field_def("hidden", FieldType::Boolean, Mode::Optional, Mode::Optional, true, false),
        field_def("trashed", FieldType::Boolean, Mode::Absent, Mode::Absent, true, true),
        field_def("favorite", FieldType::Boolean, Mode::Optional, Mode::Optional, true, true),
        field_def("revisions", FieldType::Structured, Mode::Absent, Mode::Absent, false, false),
        field_def("folders", FieldType::Structured, Mode::Absent, Mode::Absent, false, false),
        field_def("passwords", FieldType::Structured, Mode::Absent, Mode::Absent, false, false),
    ];
    proof {
        reveal_strlit("id");
        reveal_strlit("label");
        reveal_strlit("parent");
        reveal_strlit("created");
        reveal_strlit("updated");
        reveal_strlit("edited");
        reveal_strlit("revision");
        reveal_strlit("cseType");
        reveal_strlit("cseKey");
        reveal_strlit("sseType");
        reveal_strlit("client");
        reveal_strlit("hidden");
        reveal_strlit("trashed");
        reveal_strlit("favorite");
        reveal_strlit("revisions");
        reveal_strlit("folders");
        reveal_strlit("passwords");
        assert(("id")@.len() == 2);
        assert(("label")@.len() == 5);
        assert(("parent")@.len() == 6);
        assert(("created")@.len() == 7);
        assert(("updated")@.len() == 7);
        assert(("edited")@.len() == 6);
        assert(("revision")@.len() == 8);
        assert(("cseType")@.len() == 7);
        assert(("cseKey")@.len() == 6);
        assert(("sseType")@.len() == 7);
        assert(("client")@.len() == 6);
        assert(("hidden")@.len() == 6);
        assert(("trashed")@.len() == 7);
        assert(("favorite")@.len() == 8);
        assert(("revisions")@.len() == 9);
        assert(("folders")@.len() == 7);
        assert(("passwords")@.len() == 9);
        assert(("parent")@[0] != ("edited")@[0]);
        assert(("parent")@[0] != ("cseKey")@[0]);
        assert(("parent")@[0] != ("client")@[0]);
        assert(("parent")@[0] != ("hidden")@[0]);
        assert(("created")@[0] != ("updated")@[0]);
        assert(("created")@[1] != ("cseType")@[1]);
        assert(("created")@[0] != ("sseType")@[0]);
        assert(("created")@[0] != ("trashed")@[0]);
        assert(("created")@[0] != ("folders")@[0]);
        assert(("updated")@[0] != ("cseType")@[0]);
        assert(("updated")@[0] != ("sseType")@[0]);
        assert(("updated")@[0] != ("trashed")@[0]);
        assert(("updated")@[0] != ("folders")@[0]);
        assert(("edited")@[0] != ("cseKey")@[0]);
        assert(("edited")@[0] != ("client")@[0]);
        assert(("edited")@[0] != ("hidden")@[0]);
        assert(("revision")@[0] != ("favorite")@[0]);
        assert(("cseType")@[0] != ("sseType")@[0]);
        assert(("cseType")@[0] != ("trashed")@[0]);
        assert(("cseType")@[0] != ("folders")@[0]);
        assert(("cseKey")@[1] != ("client")@[1]);
        assert(("cseKey")@[0] != ("hidden")@[0]);
        assert(("sseType")@[0] != ("trashed")@[0]);
        assert(("sseType")@[0] != ("folders")@[0]);
        assert(("client")@[0] != ("hidden")@[0]);
        assert(("trashed")@[0] != ("folders")@[0]);
        assert(("revisions")@[0] != ("passwords")@[0]);
        assert forall|i: int, j: int|
            0 <= i < j < fields@.len() implies (#[trigger] fields@[i].name)@ != (
        #[trigger] fields@[j].name)@ by {
        }
        assert(unique_names(fields@));
    }
    Schema::new(fields)
}

/// Lists all records except the trashed and the hidden ones, as the server
/// filters them.
pub fn list_request(details: Option<Details>) -> (r: Request)
    ensures
        r.verb == Verb::Post,
        r.path@ == "1.0/folder"@ + "/list"@,
        r.body matches JsonValue::Obj(ps) && (match details {
            None => ps@.len() == 0,
            Some(d) => ps@.len() == 1 && ps@[0].0@ == "details"@ && (
            ps@[0].1 matches JsonValue::Str(t) && t@ == detail_token_spec(d)),
        }),
{
    crate::crud::list_request("1.0/folder", detail_opt(details))
}

/// Shows a single record; the only operation that can read hidden records.
pub fn show_request(id: String, details: Option<Details>) -> (r: Request)
    ensures
        r.verb == Verb::Post,
        r.path@ == "1.0/folder"@ + "/show"@,
        r.body matches JsonValue::Obj(ps) && ps@.len() >= 1 && ps@[0].0@ == "id"@ && ps@[0].1
            == JsonValue::Str(id) && (match details {
            None => ps@.drop_first().len() == 0,
            Some(d) => ps@.drop_first().len() == 1 && ps@.drop_first()[0].0@ == "details"@ && (
            ps@.drop_first()[0].1 matches JsonValue::Str(t) && t@ == detail_token_spec(d)),
        }),
{
    crate::crud::show_request("1.0/folder", id, detail_opt(details))
}

/// Finds the records matching the given sparse criteria.
pub fn find_request(criteria: EntitySearch, details: Option<Details>) -> (r: Request)
    requires
        criteria.wf(),
    ensures
        r.verb == Verb::Post,
        r.path@ == "1.0/folder"@ + "/find"@,
        r.body matches JsonValue::Obj(ps) && ps@.len() >= 1 && ps@[0].0@ == "criteria"@ && (
        ps@[0].1 matches JsonValue::Obj(cs) && sparse_pairs_match(
            criteria.names@,
            criteria.criteria@,
            cs@,
            0,
        )) && (match details {
            None => ps@.drop_first().len() == 0,
            Some(d) => ps@.drop_first().len() == 1 && ps@.drop_first()[0].0@ == "details"@ && (
            ps@.drop_first()[0].1 matches JsonValue::Str(t) && t@ == detail_token_spec(d)),
        }),
{
    crate::crud::find_request("1.0/folder", criteria, detail_opt(details))
}

/// Creates a new record from a create builder; the server assigns the id
/// and the first revision.
pub fn create_request(value: EntityBuilder) -> (r: Request)
    requires
        value.wf(),
    ensures
        r.verb == Verb::Post,
        r.path@ == "1.0/folder"@ + "/create"@,
        r.body matches JsonValue::Obj(ps) && ps@ == builder_pairs(value),
{
    crate::crud::create_request("1.0/folder", value)
}

/// Updates a record from an update builder, always creating a new revision.
pub fn update_request(value: EntityBuilder) -> (r: Request)
    requires
        value.wf(),
    ensures
        r.verb == Verb::Post,
        r.path@ == "1.0/folder"@ + "/update"@,
        r.body matches JsonValue::Obj(ps) && ps@ == builder_pairs(value),
{
    crate::crud::update_request("1.0/folder", value)
}

/// Moves a record to the trash, or deletes it permanently when it is
/// already there.  With an expected revision set, a stale revision makes
/// the server reject the call and nothing changes.
pub fn delete_request(id: String, revision: Option<String>) -> (r: Request)
    ensures
        r.verb == Verb::Delete,
        r.path@ == "1.0/folder"@ + "/delete"@,
        r.body matches JsonValue::Obj(ps) && ps@.len() >= 1 && ps@[0].0@ == "id"@ && ps@[0].1
            == JsonValue::Str(id) && revision_entry(ps@.drop_first(), revision),
{
    crate::crud::delete_request("1.0/folder", id, revision)
}

/// Restores an earlier state of a record, always creating a new revision.
/// Without a target revision, a record not in the trash is left as it is.
pub fn restore_request(id: String, revision: Option<String>) -> (r: Request)
    ensures
        r.verb == Verb::Patch,
        r.path@ == "1.0/folder"@ + "/restore"@,
        r.body matches JsonValue::Obj(ps) && ps@.len() >= 1 && ps@[0].0@ == "id"@ && ps@[0].1
            == JsonValue::Str(id) && revision_entry(ps@.drop_first(), revision),
{
    crate::crud::restore_request("1.0/folder", id, revision)
}

fn detail_opt(details: Option<Details>) -> (r: Option<String>)
    ensures
        match details {
            None => r is None,
            Some(d) => r matches Some(t) && t@ == detail_token_spec(d),
        },
{
    match details {
        Some(d) => Some(d.detail_token()),
        None => None,
    }
}


} // verus!
