//! The share API: sharing passwords with other users.

use vstd::prelude::*;
use crate::Error;
use crate::builder::{EntityBuilder, builder_pairs};
use crate::crud::{Request, Verb};
use crate::json::{JsonValue, lookup_first};
use crate::schema::{FieldDef, FieldType, FieldTag, Mode, Schema, SchemaError, field_def, unique_names};
use crate::search::{EntitySearch, sparse_pairs_match};

verus! {

/// Which optional details a read operation should include.
#[derive(Clone, Copy, Debug, PartialEq, Eq, Structural)]
pub struct Details {
    pub password: bool,
}

/// The single wire token of a detail level: `model` plus one `+flag` suffix
/// per requested detail, in a fixed order; absent flags are omitted.
pub open spec fn detail_token_spec(d: Details) -> Seq<char> {
    "model"@ +
        (if d.password { "+password"@ } else { Seq::<char>::empty() })
}

impl Details {
    /// The base detail level: just the model.
    pub fn new() -> (r: Details)
        ensures
            r.password == false,
    {
        Details { password: false }
    }

    /// Requests the `password` detail in the response models.
    pub fn password(self) -> (r: Details)
        ensures
            r.password == true,

    {
        Details { password: true, ..self }
    }

    /// Collapses the detail level to its wire token.
    pub fn detail_token(&self) -> (r: String)
        ensures
            r@ == detail_token_spec(*self),
    {
        let mut s = "model".to_owned();
        if self.password {
            s.append("+password");
        }
        proof {
            assert(s@ =~= detail_token_spec(*self));
        }
        s
    }
}

/// Either the bare identifier of the related password or its embedded model:
/// the two representations the wire format uses interchangeably.
#[derive(Debug, PartialEq)]
pub enum PasswordInfoKind {
    Id(String),
    Data(JsonValue),
}

/// The relation to a password, as an identifier or an embedded model.
#[derive(Debug)]
pub struct PasswordInfo(PasswordInfoKind);

impl PasswordInfo {
    /// Which representation the relation uses.
    pub closed spec fn kind_spec(&self) -> PasswordInfoKind {
        self.0
    }

    /// A relation by bare identifier.
    pub fn new(id: String) -> (r: PasswordInfo)
        ensures
            r.kind_spec() == PasswordInfoKind::Id(id),
    {
        PasswordInfo(PasswordInfoKind::Id(id))
    }

    /// The representation of this relation.
    pub fn get(&self) -> (r: &PasswordInfoKind)
        ensures
            *r == self.kind_spec(),
    {
        &self.0
    }

    /// The wire value: the bare identifier as a string, the embedded model
    /// as it stands.
    pub fn to_json(self) -> (r: JsonValue)
        ensures
            match self.kind_spec() {
                PasswordInfoKind::Id(s) => r == JsonValue::Str(s),
                PasswordInfoKind::Data(v) => r == v,
            },
    {
        match self.0 {
            PasswordInfoKind::Id(s) => JsonValue::Str(s),
            PasswordInfoKind::Data(v) => v,
        }
    }

    /// Reads the wire value: a string is an identifier, anything else is an
    /// embedded model.
    pub fn from_json(v: JsonValue) -> (r: PasswordInfo)
        ensures
            v matches JsonValue::Str(s) ==> r.kind_spec() == PasswordInfoKind::Id(s),
            !(v is Str) ==> r.kind_spec() == PasswordInfoKind::Data(v),
    {
        match v {
            JsonValue::Str(s) => PasswordInfo(PasswordInfoKind::Id(s)),
            other => PasswordInfo(PasswordInfoKind::Data(other)),
        }
    }
}

/// The declared field list of this entity.
pub open spec fn schema_fields_spec(s: Seq<FieldDef>) -> bool {
    &&& s.len() == 10
    &&& s[0].name@ == "id"@ && s[0].ty == FieldType::Identifier && s[0].tag == (
    FieldTag { create: Mode::Absent, update: Mode::Required, versioned: false, searchable: false })
    &&& s[1].name@ == "created"@ && s[1].ty == FieldType::Unsigned && s[1].tag == (
    FieldTag { create: Mode::Absent, update: Mode::Absent, versioned: false, searchable: true })
    &&& s[2].name@ == "updated"@ && s[2].ty == FieldType::Unsigned && s[2].tag == (
    FieldTag { create: Mode::Absent, update: Mode::Absent, versioned: false, searchable: true })
    &&& s[3].name@ == "expires"@ && s[3].ty == FieldType::Structured && s[3].tag == (
    FieldTag { create: Mode::Absent, update: Mode::Optional, versioned: false, searchable: true })
    &&& s[4].name@ == "editable"@ && s[4].ty == FieldType::Boolean && s[4].tag == (
    FieldTag { create: Mode::Absent, update: Mode::Optional, versioned: false, searchable: true })
    &&& s[5].name@ == "shareable"@ && s[5].ty == FieldType::Boolean && s[5].tag == (
    FieldTag { create: Mode::Absent, update: Mode::Optional, versioned: false, searchable: true })
    &&& s[6].name@ == "updatePending"@ && s[6].ty == FieldType::Boolean && s[6].tag == (
    FieldTag { create: Mode::Absent, update: Mode::Absent, versioned: false, searchable: false })
    &&& s[7].name@ == "password"@ && s[7].ty == FieldType::Structured && s[7].tag == (
    FieldTag { create: Mode::Absent, update: Mode::Absent, versioned: false, searchable: false })
    &&& s[8].name@ == "owner"@ && s[8].ty == FieldType::Structured && s[8].tag == (
    FieldTag { create: Mode::Absent, update: Mode::Absent, versioned: false, searchable: false })
    &&& s[9].name@ == "receiver"@ && s[9].ty == FieldType::Structured && s[9].tag == (
    FieldTag { create: Mode::Absent, update: Mode::Absent, versioned: false, searchable: false })
}

/// Declares this entity's schema: its ordered, tagged field list.  The
/// declaration is statically known to be valid: the field names are
/// pairwise distinct.
pub fn schema() -> (r: Result<Schema, SchemaError>)
    ensures
        r is Ok,
        r matches Ok(s) ==> s.wf() && schema_fields_spec(s.fields@),
{
    let fields = vec![
        field_def("id", FieldType::Identifier, Mode::Absent, Mode::Required, false, false),
        field_def("created", FieldType::Unsigned, Mode::Absent, Mode::Absent, false, true),
        field_def("updated", FieldType::Unsigned, Mode::Absent, Mode::Absent, false, true),
        field_def("expires", FieldType::Structured, Mode::Absent, Mode::Optional, false, true),
        field_def("editable", FieldType::Boolean, Mode::Absent, Mode::Optional, false, true),
        field_def("shareable", FieldType::Boolean, Mode::Absent, Mode::Optional, false, true),
        field_def("updatePending", FieldType::Boolean, Mode::Absent, Mode::Absent, false, false),
        field_def("password", FieldType::Structured, Mode::Absent, Mode::Absent, false, false),
        field_def("owner", FieldType::Structured, Mode::Absent, Mode::Absent, false, false),
        field_def("receiver", FieldType::Structured, Mode::Absent, Mode::Absent, false, false),
    ];
    proof {
        reveal_strlit("id");
        reveal_strlit("created");
        reveal_strlit("updated");
        reveal_strlit("expires");
        reveal_strlit("editable");
        reveal_strlit("shareable");
        reveal_strlit("updatePending");
        reveal_strlit("password");
        reveal_strlit("owner");
        reveal_strlit("receiver");
        assert(("id")@.len() == 2);
        assert(("created")@.len() == 7);
        assert(("updated")@.len() == 7);
        assert(("expires")@.len() == 7);
        assert(("editable")@.len() == 8);
        assert(("shareable")@.len() == 9);
        assert(("updatePending")@.len() == 13);
        assert(("password")@.len() == 8);
        assert(("owner")@.len() == 5);
        assert(("receiver")@.len() == 8);
        assert(("created")@[0] != ("updated")@[0]);
        assert(("created")@[0] != ("expires")@[0]);
        assert(("updated")@[0] != ("expires")@[0]);
        assert(("editable")@[0] != ("password")@[0]);
        assert(("editable")@[0] != ("receiver")@[0]);
        assert(("password")@[0] != ("receiver")@[0]);
        assert forall|i: int, j: int|
            0 <= i < j < fields@.len() implies (#[trigger] fields@[i].name)@ != (
        #[trigger] fields@[j].name)@ by {
        }
        assert(unique_names(fields@));
    }
    Schema::new(fields)
}

/// A user the current user can share with.
#[derive(Debug, PartialEq)]
pub struct Partner {
    pub user_id: String,
    pub display_name: String,
}

/// A user taking part in a share.
#[derive(Debug, PartialEq)]
pub struct Person {
    pub id: String,
    pub name: String,
}

/// The payload shape of a person: a string `id` and a string `name`.
pub open spec fn is_person_shape(v: JsonValue) -> bool {
    &&& v is Obj
    &&& lookup_first(v->Obj_0@, "id"@) matches Some(x) && x is Str
    &&& lookup_first(v->Obj_0@, "name"@) matches Some(x) && x is Str
}

/// Reads a person from its wire object.
pub fn person_from_json(v: &JsonValue) -> (r: Result<Person, Error>)
    ensures
        r is Ok <==> is_person_shape(*v),
        r matches Ok(p) ==> lookup_first(v->Obj_0@, "id"@) == Some(JsonValue::Str(p.id))
            && lookup_first(v->Obj_0@, "name"@) == Some(JsonValue::Str(p.name)),
        r is Err ==> r == Err::<Person, Error>(Error::Decode),
{
    match v {
        JsonValue::Obj(pairs) => {
            let id = match crate::json::obj_get(pairs, "id") {
                Some(JsonValue::Str(s)) => s.clone(),
                _ => {
                    return Err(Error::Decode);
                },
            };
            let name = match crate::json::obj_get(pairs, "name") {
                Some(JsonValue::Str(s)) => s.clone(),
                _ => {
                    return Err(Error::Decode);
                },
            };
            Ok(Person { id, name })
        },
        _ => Err(Error::Decode),
    }
}

/// A new share of a password with one receiver.  The type, the expiry and
/// the receiver's rights are optional; an absent option is omitted from the
/// wire payload.
#[derive(Debug)]
pub struct CreateShare {
    password: String,
    receiver: String,
    ty: Option<String>,
    expires: Option<Option<u64>>,
    editable: Option<bool>,
    shareable: Option<bool>,
}

impl CreateShare {
    pub closed spec fn password_spec(&self) -> String {
        self.password
    }

    pub closed spec fn receiver_spec(&self) -> String {
        self.receiver
    }

    pub closed spec fn ty_spec(&self) -> Option<String> {
        self.ty
    }

    pub closed spec fn expires_spec(&self) -> Option<Option<u64>> {
        self.expires
    }

    pub closed spec fn editable_spec(&self) -> Option<bool> {
        self.editable
    }

    pub closed spec fn shareable_spec(&self) -> Option<bool> {
        self.shareable
    }

    /// A share of the given password with the given receiver, all options
    /// absent.
    pub fn new(password_id: String, receiver_id: String) -> (r: CreateShare)
        ensures
            r.password_spec() == password_id,
            r.receiver_spec() == receiver_id,
            r.ty_spec() is None,
            r.expires_spec() is None,
            r.editable_spec() is None,
            r.shareable_spec() is None,
    {
        CreateShare {
            password: password_id,
            receiver: receiver_id,
            ty: None,
            expires: None,
            editable: None,
            shareable: None,
        }
    }

    /// The type of the share.
    pub fn share_type(self, ty: String) -> (r: CreateShare)
        ensures
            r.ty_spec() == Some(ty),
            r.password_spec() == self.password_spec(),
            r.receiver_spec() == self.receiver_spec(),
            r.expires_spec() == self.expires_spec(),
            r.editable_spec() == self.editable_spec(),
            r.shareable_spec() == self.shareable_spec(),
    {
        CreateShare { ty: Some(ty), ..self }
    }

    /// When the share expires, or an explicit never.
    pub fn expires(self, expires: Option<u64>) -> (r: CreateShare)
        ensures
            r.expires_spec() == Some(expires),
            r.password_spec() == self.password_spec(),
            r.receiver_spec() == self.receiver_spec(),
            r.ty_spec() == self.ty_spec(),
            r.editable_spec() == self.editable_spec(),
            r.shareable_spec() == self.shareable_spec(),
    {
        CreateShare { expires: Some(expires), ..self }
    }

    /// Whether the receiver can edit the password.
    pub fn editable(self, editable: bool) -> (r: CreateShare)
        ensures
            r.editable_spec() == Some(editable),
            r.password_spec() == self.password_spec(),
            r.receiver_spec() == self.receiver_spec(),
            r.ty_spec() == self.ty_spec(),
            r.expires_spec() == self.expires_spec(),
            r.shareable_spec() == self.shareable_spec(),
    {
        CreateShare { editable: Some(editable), ..self }
    }

    /// Whether the receiver can share the password further.
    pub fn shareable(self, shareable: bool) -> (r: CreateShare)
        ensures
            r.shareable_spec() == Some(shareable),
            r.password_spec() == self.password_spec(),
            r.receiver_spec() == self.receiver_spec(),
            r.ty_spec() == self.ty_spec(),
            r.expires_spec() == self.expires_spec(),
            r.editable_spec() == self.editable_spec(),
    {
        CreateShare { shareable: Some(shareable), ..self }
    }

    /// The wire object of the new share: the password and the receiver
    /// always, then exactly the set options, the type under its wire name
    /// `type`, an explicit never-expiry as null.
    pub fn to_json(self) -> (r: JsonValue)
        ensures
            r matches JsonValue::Obj(ps) && {
                let a: int = if self.ty_spec() is Some {
                    1
                } else {
                    0
                };
                let b: int = if self.expires_spec() is Some {
                    1
                } else {
                    0
                };
                let c: int = if self.editable_spec() is Some {
                    1
                } else {
                    0
                };
                let d: int = if self.shareable_spec() is Some {
                    1
                } else {
                    0
                };
                &&& ps@.len() == 2 + a + b + c + d
                &&& ps@[0].0@ == "password"@ && ps@[0].1 == JsonValue::Str(self.password_spec())
                &&& ps@[1].0@ == "receiver"@ && ps@[1].1 == JsonValue::Str(self.receiver_spec())
                &&& self.ty_spec() matches Some(t) ==> ps@[2].0@ == "type"@ && ps@[2].1
                    == JsonValue::Str(t)
                &&& self.expires_spec() matches Some(e) ==> ps@[2 + a].0@ == "expires"@ && ps@[2
                    + a].1 == (match e {
                    Some(ts) => JsonValue::UInt(ts),
                    None => JsonValue::Null,
                })
                &&& self.editable_spec() matches Some(ed) ==> ps@[2 + a + b].0@ == "editable"@
                    && ps@[2 + a + b].1 == JsonValue::Bool(ed)
                &&& self.shareable_spec() matches Some(sh) ==> ps@[2 + a + b + c].0@
                    == "shareable"@ && ps@[2 + a + b + c].1 == JsonValue::Bool(sh)
            },
    {
        let mut ps: Vec<(String, JsonValue)> = Vec::new();
        ps.push(("password".to_owned(), JsonValue::Str(self.password)));
        ps.push(("receiver".to_owned(), JsonValue::Str(self.receiver)));
        match self.ty {
            Some(t) => {
                ps.push(("type".to_owned(), JsonValue::Str(t)));
            },
            None => {},
        }
        match self.expires {
            Some(e) => {
                let entry = match e {
                    Some(ts) => JsonValue::UInt(ts),
                    None => JsonValue::Null,
                };
                ps.push(("expires".to_owned(), entry));
            },
            None => {},
        }
        match self.editable {
            Some(ed) => {
                ps.push(("editable".to_owned(), JsonValue::Bool(ed)));
            },
            None => {},
        }
        match self.shareable {
            Some(sh) => {
                ps.push(("shareable".to_owned(), JsonValue::Bool(sh)));
            },
            None => {},
        }
        JsonValue::Obj(ps)
    }
}

/// Creates a new share.  The call fails server-side if the password is
/// hidden, its encryption does not support sharing, or sharing is disabled.
pub fn create_request(create: CreateShare) -> (r: Request)
    ensures
        r.verb == Verb::Post,
        r.path@ == "/api/1.0/share/create"@,
        r.body matches JsonValue::Obj(ps) && ps@.len() >= 2 && ps@[0].0@ == "password"@
            && ps@[0].1 == JsonValue::Str(create.password_spec()) && ps@[1].0@ == "receiver"@
            && ps@[1].1 == JsonValue::Str(create.receiver_spec()),
{
    Request {
        verb: Verb::Post,
        path: "/api/1.0/share/create".to_owned(),
        body: create.to_json(),
    }
}

/// Changes the properties of an existing share; only the owner can.
pub fn update_request(value: EntityBuilder) -> (r: Request)
    requires
        value.wf(),
    ensures
        r.verb == Verb::Post,
        r.path@ == "/api/1.0/share/update"@,
        r.body matches JsonValue::Obj(ps) && ps@ == builder_pairs(value),
{
    Request { verb: Verb::Post, path: "/api/1.0/share/update".to_owned(), body: value.to_json() }
}

/// Deletes a share owned by the user; this works even with sharing
/// disabled.
pub fn delete_request(share_id: String) -> (r: Request)
    ensures
        r.verb == Verb::Post,
        r.path@ == "/api/1.0/share/delete"@,
        r.body matches JsonValue::Obj(ps) && ps@.len() == 1 && ps@[0].0@ == "id"@ && ps@[0].1
            == JsonValue::Str(share_id),
{
    Request {
        verb: Verb::Post,
        path: "/api/1.0/share/delete".to_owned(),
        body: JsonValue::Obj(vec![("id".to_owned(), JsonValue::Str(share_id))]),
    }
}

/// Reads the bare-id result of a share create, update or delete.
pub fn id_from_json(v: &JsonValue) -> (r: Result<String, Error>)
    ensures
        r is Ok <==> (*v is Obj && (lookup_first(v->Obj_0@, "id"@) matches Some(x) && x is Str)),
        r matches Ok(id) ==> lookup_first(v->Obj_0@, "id"@) == Some(JsonValue::Str(id)),
        r is Err ==> r == Err::<String, Error>(Error::Decode),
{
    crate::crud::parse_id_only(v)
}

/// Asks for the users the current user can share with.  Without a search
/// term the call is a plain read; with one it posts the term, together with
/// the optional result limit.
pub fn partners_request(search: Option<String>, limit: Option<u64>) -> (r: Request)
    ensures
        search is None ==> r.verb == Verb::Get,
        search is Some ==> r.verb == Verb::Post,
        r.path@ == "/api/1.0/share/partners"@,
        r.body matches JsonValue::Obj(ps) && {
            let a: int = if search is Some {
                1
            } else {
                0
            };
            let b: int = if limit is Some {
                1
            } else {
                0
            };
            &&& ps@.len() == a + b
            &&& search matches Some(s) ==> ps@[0].0@ == "search"@ && ps@[0].1 == JsonValue::Str(s)
            &&& limit matches Some(l) ==> ps@[a].0@ == "limit"@ && ps@[a].1 == JsonValue::UInt(l)
        },
{
    let verb = match &search {
        Some(_) => Verb::Post,
        None => Verb::Get,
    };
    let mut ps: Vec<(String, JsonValue)> = Vec::new();
    match search {
        Some(s) => {
            ps.push(("search".to_owned(), JsonValue::Str(s)));
        },
        None => {},
    }
    match limit {
        Some(l) => {
            ps.push(("limit".to_owned(), JsonValue::UInt(l)));
        },
        None => {},
    }
    Request { verb, path: "/api/1.0/share/partners".to_owned(), body: JsonValue::Obj(ps) }
}

/// Every partner entry is an object whose values are all strings.
pub open spec fn partners_ok(items: Seq<JsonValue>) -> bool {
    forall|k: int|
        0 <= k < items.len() ==> (#[trigger] items[k]) is Obj && (forall|j: int|
            0 <= j < items[k]->Obj_0@.len() ==> (#[trigger] items[k]->Obj_0@[j]).1 is Str)
}

/// The partners of the first `n` entries: the first pair of each non-empty
/// entry, as a user id and a display name; empty entries contribute
/// nothing.
pub open spec fn partners_upto(items: Seq<JsonValue>, n: int) -> Seq<Partner>
    decreases n,
{
    if n <= 0 {
        Seq::empty()
    } else {
        let rest = partners_upto(items, n - 1);
        let ps = items[n - 1]->Obj_0@;
        if ps.len() > 0 {
            rest.push(Partner { user_id: ps[0].0, display_name: ps[0].1->Str_0 })
        } else {
            rest
        }
    }
}

/// Reads the partner list: one user per non-empty entry, in order.  The
/// call fails on a payload that is not an array of string-valued objects.
pub fn partners_from_json(v: JsonValue) -> (r: Result<Vec<Partner>, Error>)
    ensures
        r is Ok <==> (v is Arr && partners_ok(v->Arr_0@)),
        r matches Ok(ps) ==> ps@ == partners_upto(v->Arr_0@, v->Arr_0@.len() as int),
        r is Err ==> r == Err::<Vec<Partner>, Error>(Error::Decode),
{
    let mut items = match v {
        JsonValue::Arr(items) => items,
        _ => {
            return Err(Error::Decode);
        },
    };
    let ghost orig = items@;
    let mut out: Vec<Partner> = Vec::new();
    let mut i: usize = 0;
    let n = items.len();
    proof {
        assert(orig.skip(0) =~= orig);
    }
    while items.len() > 0
        invariant
            v is Arr && v->Arr_0@ == orig,
            items@.len() + i == n == orig.len(),
            items@ == orig.skip(i as int),
            out@ == partners_upto(orig, i as int),
            forall|k: int|
                0 <= k < i ==> (#[trigger] orig[k]) is Obj && (forall|j: int|
                    0 <= j < orig[k]->Obj_0@.len() ==> (#[trigger] orig[k]->Obj_0@[j]).1 is Str),
        decreases items@.len(),
    {
        let item = items.remove(0);
        proof {
            assert(orig.skip(i as int)[0] == orig[i as int]);
            assert(orig.skip(i as int).drop_first() =~= orig.skip(i + 1));
        }
        let mut pairs = match item {
            JsonValue::Obj(pairs) => pairs,
            _ => {
                proof {
                    assert(!((orig[i as int]) is Obj));
                }
                return Err(Error::Decode);
            },
        };
        let m = pairs.len();
        let mut j: usize = 0;
        while j < m
            invariant
                0 <= j <= m == pairs@.len(),
                v is Arr && v->Arr_0@ == orig,
                orig[i as int] is Obj && orig[i as int]->Obj_0@ == pairs@,
                0 <= i < orig.len(),
                forall|k: int| 0 <= k < j ==> (#[trigger] pairs@[k]).1 is Str,
            decreases m - j,
        {
            match &pairs[j].1 {
                JsonValue::Str(_) => {},
                _ => {
                    proof {
                        assert(!((orig[i as int]->Obj_0@[j as int]).1 is Str));
                    }
                    return Err(Error::Decode);
                },
            }
            j = j + 1;
        }
        if pairs.len() > 0 {
            let first = pairs.remove(0);
            let user_id = first.0;
            let display_name = match first.1 {
                JsonValue::Str(s) => s,
                _ => {
                    return Err(Error::Decode);
                },
            };
            out.push(Partner { user_id, display_name });
        }
        i = i + 1;
    }
    proof {
        assert(i == orig.len());
    }
    Ok(out)
}

/// Lists all shares with the user as owner or receiver; this works even
/// with sharing disabled.
pub fn list_request(details: Option<Details>) -> (r: Request)
    ensures
        r.verb == Verb::Post,
        r.path@ == "1.0/share"@ + "/list"@,
        r.body matches JsonValue::Obj(ps) && (match details {
            None => ps@.len() == 0,
            Some(d) => ps@.len() == 1 && ps@[0].0@ == "details"@ && (
            ps@[0].1 matches JsonValue::Str(t) && t@ == detail_token_spec(d)),
        }),
{
    crate::crud::list_request("1.0/share", detail_opt(details))
}

/// Shows a single share.
pub fn show_request(id: String, details: Option<Details>) -> (r: Request)
    ensures
        r.verb == Verb::Post,
        r.path@ == "1.0/share"@ + "/show"@,
        r.body matches JsonValue::Obj(ps) && ps@.len() >= 1 && ps@[0].0@ == "id"@ && ps@[0].1
            == JsonValue::Str(id) && (match details {
            None => ps@.drop_first().len() == 0,
            Some(d) => ps@.drop_first().len() == 1 && ps@.drop_first()[0].0@ == "details"@ && (
            ps@.drop_first()[0].1 matches JsonValue::Str(t) && t@ == detail_token_spec(d)),
        }),
{
    crate::crud::show_request("1.0/share", id, detail_opt(details))
}

/// Finds the shares matching the given sparse criteria.
pub fn find_request(criteria: EntitySearch, details: Option<Details>) -> (r: Request)
    requires
        criteria.wf(),
    ensures
        r.verb == Verb::Post,
        r.path@ == "1.0/share"@ + "/find"@,
        r.body matches JsonValue::Obj(ps) && ps@.len() >= 1 && ps@[0].0@ == "criteria"@ && (
        ps@[0].1 matches JsonValue::Obj(cs) && sparse_pairs_match(
            criteria.names@,
            criteria.criteria@,
            cs@,
            0,
        )) && (match details {
            None => ps@.drop_first().len() == 0,
            Some(d) => ps@.drop_first().len() == 1 && ps@.drop_first()[0].0@ == "details"@ && (
            ps@.drop_first()[0].1 matches JsonValue::Str(t) && t@ == detail_token_spec(d)),
        }),
{
    crate::crud::find_request("1.0/share", criteria, detail_opt(details))
}

fn detail_opt(details: Option<Details>) -> (r: Option<String>)
    ensures
        match details {
            None => r is None,
            Some(d) => r matches Some(t) && t@ == detail_token_spec(d),
        },
{
    match details {
        Some(d) => Some(d.detail_token()),
        None => None,
    }
}

} // verus!
