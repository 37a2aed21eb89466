//! Entity schemas: ordered lists of named, tagged fields, and the
//! partitioning of a schema into the five derived field-sets.

use vstd::prelude::*;
use crate::text::str_eq;

verus! {

/// Whether a field takes part in a create or update call, and how.
#[derive(Clone, Copy, Debug, PartialEq, Eq, Structural)]
pub enum Mode {
    /// The field is a mandatory constructor argument.
    Required,
    /// The field is settable after construction and defaults to absent.
    Optional,
    /// The field does not appear in the call at all.
    Absent,
}

/// The full annotation of one schema field.
#[derive(Clone, Copy, Debug, PartialEq, Eq, Structural)]
pub struct FieldTag {
    pub create: Mode,
    pub update: Mode,
    pub versioned: bool,
    pub searchable: bool,
}

impl FieldTag {
    /// A tag with no annotations: read-only, flat, not searchable.
    pub fn plain() -> (r: FieldTag)
        ensures
            r == (FieldTag {
                create: Mode::Absent,
                update: Mode::Absent,
                versioned: false,
                searchable: false,
            }),
    {
        FieldTag { create: Mode::Absent, update: Mode::Absent, versioned: false, searchable: false }
    }
}

/// One recognized annotation token.
#[derive(Clone, Copy, Debug, PartialEq, Eq, Structural)]
pub enum RawTag {
    CreateRequired,
    CreateOptional,
    UpdateRequired,
    UpdateOptional,
    VersionedTrue,
    VersionedFalse,
    Search,
}

/// A fatal error in the declaration of a schema.  These are configuration
/// errors caught when the schema is authored, never a runtime path.
#[derive(Clone, Copy, Debug, PartialEq, Eq, Structural)]
pub enum SchemaError {
    /// An annotation token was not recognized.
    UnknownTag,
    /// Two annotation tokens of the same category were given on one field.
    DuplicateTag,
    /// Two fields of one schema share a name.
    DuplicateField,
    /// A field name does not belong to the addressed field-set.
    UnknownField,
    /// A value list does not match the arity of the addressed field-set.
    ArityMismatch,
}

/// The broad wire type of a field, kept as schema metadata.
#[derive(Clone, Copy, Debug, PartialEq, Eq, Structural)]
pub enum FieldType {
    Text,
    Integer,
    Unsigned,
    Boolean,
    Identifier,
    Structured,
}

/// One schema field: name, wire type and annotation.
#[derive(Debug)]
pub struct FieldDef {
    pub name: String,
    pub ty: FieldType,
    pub tag: FieldTag,
}

/// The tag a recognized token sequence element denotes.
pub open spec fn token_tag(s: Seq<char>) -> Option<RawTag> {
    if s == "create(required)"@ {
        Some(RawTag::CreateRequired)
    } else if s == "create(optional)"@ {
        Some(RawTag::CreateOptional)
    } else if s == "update(required)"@ {
        Some(RawTag::UpdateRequired)
    } else if s == "update(optional)"@ {
        Some(RawTag::UpdateOptional)
    } else if s == "versioned(true)"@ {
        Some(RawTag::VersionedTrue)
    } else if s == "versioned(false)"@ {
        Some(RawTag::VersionedFalse)
    } else if s == "search"@ {
        Some(RawTag::Search)
    } else {
        None
    }
}

/// Classifies one annotation token.
pub fn parse_tag_token(s: &str) -> (r: Option<RawTag>)
    ensures
        r == token_tag(s@),
{
    if str_eq(s, "create(required)") {
        Some(RawTag::CreateRequired)
    } else if str_eq(s, "create(optional)") {
        Some(RawTag::CreateOptional)
    } else if str_eq(s, "update(required)") {
        Some(RawTag::UpdateRequired)
    } else if str_eq(s, "update(optional)") {
        Some(RawTag::UpdateOptional)
    } else if str_eq(s, "versioned(true)") {
        Some(RawTag::VersionedTrue)
    } else if str_eq(s, "versioned(false)") {
        Some(RawTag::VersionedFalse)
    } else if str_eq(s, "search") {
        Some(RawTag::Search)
    } else {
        None
    }
}

/// The views of a list of token strings.
pub open spec fn views_of(ts: Seq<String>) -> Seq<Seq<char>> {
    ts.map_values(|t: String| t@)
}

/// Folds the tokens from position `i` on into the accumulated tag.  The
/// `seen_*` flags record which categories have already been set; a second
/// token of a set category is a duplicate.
pub open spec fn tags_fold(
    ts: Seq<Seq<char>>,
    i: int,
    tag: FieldTag,
    seen_create: bool,
    seen_update: bool,
    seen_versioned: bool,
    seen_search: bool,
) -> Result<FieldTag, SchemaError>
    decreases ts.len() - i,
{
    if i < 0 || i >= ts.len() {
        Ok(tag)
    } else {
        match token_tag(ts[i]) {
            None => Err(SchemaError::UnknownTag),
            Some(raw) => {
                let dup = match raw {
                    RawTag::CreateRequired => seen_create,
                    RawTag::CreateOptional => seen_create,
                    RawTag::UpdateRequired => seen_update,
                    RawTag::UpdateOptional => seen_update,
                    RawTag::VersionedTrue => seen_versioned,
                    RawTag::VersionedFalse => seen_versioned,
                    RawTag::Search => seen_search,
                };
                if dup {
                    Err(SchemaError::DuplicateTag)
                } else {
                    let next = match raw {
                        RawTag::CreateRequired => FieldTag { create: Mode::Required, ..tag },
                        RawTag::CreateOptional => FieldTag { create: Mode::Optional, ..tag },
                        RawTag::UpdateRequired => FieldTag { update: Mode::Required, ..tag },
                        RawTag::UpdateOptional => FieldTag { update: Mode::Optional, ..tag },
                        RawTag::VersionedTrue => FieldTag { versioned: true, ..tag },
                        RawTag::VersionedFalse => FieldTag { versioned: false, ..tag },
                        RawTag::Search => FieldTag { searchable: true, ..tag },
                    };
                    tags_fold(
                        ts,
                        i + 1,
                        next,
                        seen_create || (raw is CreateRequired || raw is CreateOptional),
                        seen_update || (raw is UpdateRequired || raw is UpdateOptional),
                        seen_versioned || (raw is VersionedTrue || raw is VersionedFalse),
                        seen_search || raw is Search,
                    )
                }
            },
        }
    }
}

/// The tag a whole token sequence denotes, starting from the default tag.
pub open spec fn tags_of(ts: Seq<Seq<char>>) -> Result<FieldTag, SchemaError> {
    tags_fold(
        ts,
        0,
        FieldTag { create: Mode::Absent, update: Mode::Absent, versioned: false, searchable: false },
        false,
        false,
        false,
        false,
    )
}

impl FieldTag {
    /// Reads a field's annotation tokens into a tag.
    ///
    /// An unrecognized token or a second token of an already-set category is
    /// a fatal schema-definition error.
    pub fn from_tokens(tokens: &Vec<String>) -> (r: Result<FieldTag, SchemaError>)
        ensures
            r == tags_of(views_of(tokens@)),
    {
        let ghost ts = views_of(tokens@);
        let mut tag = FieldTag::plain();
        let mut seen_create = false;
        let mut seen_update = false;
        let mut seen_versioned = false;
        let mut seen_search = false;
        let n = tokens.len();
        let mut i: usize = 0;
        while i < n
            invariant
                0 <= i <= n == tokens@.len(),
                ts == views_of(tokens@),
                tags_of(ts) == tags_fold(
                    ts,
                    i as int,
                    tag,
                    seen_create,
                    seen_update,
                    seen_versioned,
                    seen_search,
                ),
            decreases n - i,
        {
            proof {
                assert(ts[i as int] == tokens@[i as int]@);
            }
            match parse_tag_token(tokens[i].as_str()) {
                None => {
                    return Err(SchemaError::UnknownTag);
                },
                Some(raw) => {
                    let dup = match raw {
                        RawTag::CreateRequired => seen_create,
                        RawTag::CreateOptional => seen_create,
                        RawTag::UpdateRequired => seen_update,
                        RawTag::UpdateOptional => seen_update,
                        RawTag::VersionedTrue => seen_versioned,
                        RawTag::VersionedFalse => seen_versioned,
                        RawTag::Search => seen_search,
                    };
                    if dup {
                        return Err(SchemaError::DuplicateTag);
                    }
                    tag = match raw {
                        RawTag::CreateRequired => FieldTag { create: Mode::Required, ..tag },
                        RawTag::CreateOptional => FieldTag { create: Mode::Optional, ..tag },
                        RawTag::UpdateRequired => FieldTag { update: Mode::Required, ..tag },
                        RawTag::UpdateOptional => FieldTag { update: Mode::Optional, ..tag },
                        RawTag::VersionedTrue => FieldTag { versioned: true, ..tag },
                        RawTag::VersionedFalse => FieldTag { versioned: false, ..tag },
                        RawTag::Search => FieldTag { searchable: true, ..tag },
                    };
                    match raw {
                        RawTag::CreateRequired => { seen_create = true; },
                        RawTag::CreateOptional => { seen_create = true; },
                        RawTag::UpdateRequired => { seen_update = true; },
                        RawTag::UpdateOptional => { seen_update = true; },
                        RawTag::VersionedTrue => { seen_versioned = true; },
                        RawTag::VersionedFalse => { seen_versioned = true; },
                        RawTag::Search => { seen_search = true; },
                    }
                },
            }
            i = i + 1;
        }
        Ok(tag)
    }
}

/// Declares one schema field.
pub fn field_def(
    name: &str,
    ty: FieldType,
    create: Mode,
    update: Mode,
    versioned: bool,
    searchable: bool,
) -> (r: FieldDef)
    ensures
        r.name@ == name@,
        r.ty == ty,
        r.tag == (FieldTag { create, update, versioned, searchable }),
{
    FieldDef { name: name.to_owned(), ty, tag: FieldTag { create, update, versioned, searchable } }
}

/// An entity schema: an ordered list of fields with unique names.
#[derive(Debug)]
pub struct Schema {
    pub fields: Vec<FieldDef>,
}

/// Field names are pairwise distinct.
pub open spec fn unique_names(fields: Seq<FieldDef>) -> bool {
    forall|i: int, j: int|
        0 <= i < j < fields.len() ==> (#[trigger] fields[i].name)@ != (#[trigger] fields[j].name)@
}

impl Schema {
    /// The schema's fields have pairwise distinct names.
    pub open spec fn wf(&self) -> bool {
        unique_names(self.fields@)
    }

    /// Declares a schema, rejecting duplicate field names.
    pub fn new(fields: Vec<FieldDef>) -> (r: Result<Schema, SchemaError>)
        ensures
            r matches Ok(s) ==> s.fields == fields && s.wf(),
            r is Err <==> !unique_names(fields@),
            r is Err ==> r == Err::<Schema, SchemaError>(SchemaError::DuplicateField),
    {
        let n = fields.len();
        let mut i: usize = 0;
        while i < n
            invariant
                0 <= i <= n == fields@.len(),
                forall|a: int, b: int|
                    0 <= a < b < fields@.len() && a < i ==> (#[trigger] fields@[a].name)@ != (
                    #[trigger] fields@[b].name)@,
            decreases n - i,
        {
            let mut j: usize = i + 1;
            while j < n
                invariant
                    0 <= i < j <= n == fields@.len(),
                    forall|b: int|
                        i < b < j ==> (fields@[i as int].name)@ != (#[trigger] fields@[b].name)@,
                decreases n - j,
            {
                if str_eq(fields[i].name.as_str(), fields[j].name.as_str()) {
                    return Err(SchemaError::DuplicateField);
                }
                j = j + 1;
            }
            i = i + 1;
        }
        Ok(Schema { fields })
    }

    /// How many fields the schema declares.
    pub fn len(&self) -> (r: usize)
        ensures
            r == self.fields@.len(),
    {
        self.fields.len()
    }

    /// The position of the field named `name`, if any.
    pub fn find_field(&self, name: &str) -> (r: Option<usize>)
        ensures
            match r {
                Some(i) => i < self.fields@.len() && self.fields@[i as int].name@ == name@
                    && forall|k: int| 0 <= k < i ==> (#[trigger] self.fields@[k].name)@ != name@,
                None => forall|k: int|
                    0 <= k < self.fields@.len() ==> (#[trigger] self.fields@[k].name)@ != name@,
            },
    {
        let n = self.fields.len();
        let mut i: usize = 0;
        while i < n
            invariant
                0 <= i <= n == self.fields@.len(),
                forall|k: int| 0 <= k < i ==> (#[trigger] self.fields@[k].name)@ != name@,
            decreases n - i,
        {
            if str_eq(self.fields[i].name.as_str(), name) {
                return Some(i);
            }
            i = i + 1;
        }
        None
    }
}

/// The positions, in declaration order, of the fields among the first `n`
/// whose tag satisfies `p`.
pub open spec fn picks(s: Seq<FieldDef>, p: spec_fn(FieldTag) -> bool, n: int) -> Seq<usize>
    decreases n,
{
    if n <= 0 {
        Seq::empty()
    } else {
        let rest = picks(s, p, n - 1);
        if p(s[n - 1].tag) {
            rest.push((n - 1) as usize)
        } else {
            rest
        }
    }
}

/// The not-versioned field-set of the first `n` fields.
pub open spec fn not_versioned_upto(s: Seq<FieldDef>, n: int) -> Seq<usize> {
    picks(s, |t: FieldTag| !t.versioned, n)
}

/// The versioned field-set of the first `n` fields.
pub open spec fn versioned_upto(s: Seq<FieldDef>, n: int) -> Seq<usize> {
    picks(s, |t: FieldTag| t.versioned, n)
}

/// The create-required field-set of the first `n` fields.
pub open spec fn create_required_upto(s: Seq<FieldDef>, n: int) -> Seq<usize> {
    picks(s, |t: FieldTag| t.create is Required, n)
}

/// The create-optional field-set of the first `n` fields.
pub open spec fn create_optional_upto(s: Seq<FieldDef>, n: int) -> Seq<usize> {
    picks(s, |t: FieldTag| t.create is Optional, n)
}

/// The update-required field-set of the first `n` fields.
pub open spec fn update_required_upto(s: Seq<FieldDef>, n: int) -> Seq<usize> {
    picks(s, |t: FieldTag| t.update is Required, n)
}

/// The update-optional field-set of the first `n` fields.
pub open spec fn update_optional_upto(s: Seq<FieldDef>, n: int) -> Seq<usize> {
    picks(s, |t: FieldTag| t.update is Optional, n)
}

/// The searchable field-set of the first `n` fields.
pub open spec fn searchable_upto(s: Seq<FieldDef>, n: int) -> Seq<usize> {
    picks(s, |t: FieldTag| t.searchable, n)
}

/// The five derived field-sets of a schema, as positions into the field
/// list, each in declaration order.
#[derive(Debug)]
pub struct Partition {
    pub not_versioned: Vec<usize>,
    pub versioned: Vec<usize>,
    pub create_required: Vec<usize>,
    pub create_optional: Vec<usize>,
    pub update_required: Vec<usize>,
    pub update_optional: Vec<usize>,
    pub searchable: Vec<usize>,
}

impl Partition {
    /// The partition matches the schema's fields exactly.
    pub open spec fn matches(&self, s: Seq<FieldDef>) -> bool {
        let n = s.len() as int;
        &&& self.not_versioned@ == not_versioned_upto(s, n)
        &&& self.versioned@ == versioned_upto(s, n)
        &&& self.create_required@ == create_required_upto(s, n)
        &&& self.create_optional@ == create_optional_upto(s, n)
        &&& self.update_required@ == update_required_upto(s, n)
        &&& self.update_optional@ == update_optional_upto(s, n)
        &&& self.searchable@ == searchable_upto(s, n)
    }
}

impl Schema {
    /// Computes the five derived field-sets of this schema.  The result is a
    /// pure function of the schema: the same schema always yields the same
    /// sets, each in declaration order.
    pub fn partition(&self) -> (r: Partition)
        ensures
            r.matches(self.fields@),
    {
        let ghost s = self.fields@;
        let mut r = Partition {
            not_versioned: Vec::new(),
            versioned: Vec::new(),
            create_required: Vec::new(),
            create_optional: Vec::new(),
            update_required: Vec::new(),
            update_optional: Vec::new(),
            searchable: Vec::new(),
        };
        let n = self.fields.len();
        let mut i: usize = 0;
        while i < n
            invariant
                0 <= i <= n == s.len(),
                s == self.fields@,
                r.not_versioned@ == not_versioned_upto(s, i as int),
                r.versioned@ == versioned_upto(s, i as int),
                r.create_required@ == create_required_upto(s, i as int),
                r.create_optional@ == create_optional_upto(s, i as int),
                r.update_required@ == update_required_upto(s, i as int),
                r.update_optional@ == update_optional_upto(s, i as int),
                r.searchable@ == searchable_upto(s, i as int),
            decreases n - i,
        {
            let tag = self.fields[i].tag;
            if tag.versioned {
                r.versioned.push(i);
            } else {
                r.not_versioned.push(i);
            }
            match tag.create {
                Mode::Required => r.create_required.push(i),
                Mode::Optional => r.create_optional.push(i),
                Mode::Absent => {},
            }
            match tag.update {
                Mode::Required => r.update_required.push(i),
                Mode::Optional => r.update_optional.push(i),
                Mode::Absent => {},
            }
            if tag.searchable {
                r.searchable.push(i);
            }
            i = i + 1;
        }
        r
    }
}

/// What membership in a pick-set means: position `j` is picked among the
/// first `n` exactly when `j < n` and its tag satisfies `p`; and the picked
/// positions are strictly increasing.
pub proof fn lemma_picks_spec(s: Seq<FieldDef>, p: spec_fn(FieldTag) -> bool, n: int)
    requires
        0 <= n <= s.len(),
        s.len() <= usize::MAX,
    ensures
        forall|k: int|
            0 <= k < picks(s, p, n).len() ==> (#[trigger] picks(s, p, n)[k]) < n && p(
                s[picks(s, p, n)[k] as int].tag,
            ),
        forall|j: usize| j < n && p(s[j as int].tag) ==> picks(s, p, n).contains(j),
        forall|a: int, b: int|
            0 <= a < b < picks(s, p, n).len() ==> picks(s, p, n)[a] < picks(s, p, n)[b],
    decreases n,
{
    if n > 0 {
        lemma_picks_spec(s, p, n - 1);
        let prev = picks(s, p, n - 1);
        let cur = picks(s, p, n);
        assert forall|k: int|
            0 <= k < cur.len() implies (#[trigger] cur[k]) < n && p(s[cur[k] as int].tag) by {
            if p(s[n - 1].tag) {
                assert(cur == prev.push((n - 1) as usize));
                if k < prev.len() {
                    assert(cur[k] == prev[k]);
                } else {
                    assert(cur[k] == (n - 1) as usize);
                }
            } else {
                assert(cur == prev);
            }
        }
        assert forall|j: usize| j < n && p(s[j as int].tag) implies cur.contains(j) by {
            if j < n - 1 {
                assert(prev.contains(j));
                let k = choose|k: int| 0 <= k < prev.len() && prev[k] == j;
                assert(cur[k] == j);
            } else {
                assert(p(s[n - 1].tag));
                assert(cur[cur.len() - 1] == j);
            }
        }
        assert forall|a: int, b: int| 0 <= a < b < cur.len() implies cur[a] < cur[b] by {
            if p(s[n - 1].tag) {
                assert(cur == prev.push((n - 1) as usize));
                if b < prev.len() {
                    assert(cur[a] == prev[a] && cur[b] == prev[b]);
                } else {
                    assert(cur[a] == prev[a]);
                    assert(prev[a] < n - 1);
                    assert(cur[b] == (n - 1) as usize);
                }
            } else {
                assert(cur == prev);
            }
        }
    }
}

/// For every valid entity schema, the derived field-sets partition the
/// fields correctly: every field whose create mode is not absent appears in
/// exactly one of the create-required and create-optional sets, and in
/// neither when it is absent; the same holds for update; and every field
/// appears in exactly one of the versioned and not-versioned sets.  A field
/// may belong to several categories at once.
pub proof fn lemma_partition_modes(s: Seq<FieldDef>)
    requires
        s.len() <= usize::MAX,
    ensures
        forall|j: usize|
            j < s.len() ==> ((#[trigger] s[j as int].tag).create is Required <==> create_required_upto(
                s,
                s.len() as int,
            ).contains(j)),
        forall|j: usize|
            j < s.len() ==> ((#[trigger] s[j as int].tag).create is Optional <==> create_optional_upto(
                s,
                s.len() as int,
            ).contains(j)),
        forall|j: usize|
            j < s.len() ==> ((#[trigger] s[j as int].tag).update is Required <==> update_required_upto(
                s,
                s.len() as int,
            ).contains(j)),
        forall|j: usize|
            j < s.len() ==> ((#[trigger] s[j as int].tag).update is Optional <==> update_optional_upto(
                s,
                s.len() as int,
            ).contains(j)),
        forall|j: usize|
            j < s.len() ==> ((#[trigger] s[j as int].tag).versioned <==> versioned_upto(
                s,
                s.len() as int,
            ).contains(j)),
        forall|j: usize|
            j < s.len() ==> (!(#[trigger] s[j as int].tag).versioned <==> not_versioned_upto(
                s,
                s.len() as int,
            ).contains(j)),
        forall|j: usize|
            j < s.len() ==> ((#[trigger] s[j as int].tag).searchable <==> searchable_upto(
                s,
                s.len() as int,
            ).contains(j)),
{
    let n = s.len() as int;
    lemma_picks_spec(s, |t: FieldTag| t.create is Required, n);
    lemma_picks_spec(s, |t: FieldTag| t.create is Optional, n);
    lemma_picks_spec(s, |t: FieldTag| t.update is Required, n);
    lemma_picks_spec(s, |t: FieldTag| t.update is Optional, n);
    lemma_picks_spec(s, |t: FieldTag| t.versioned, n);
    lemma_picks_spec(s, |t: FieldTag| !t.versioned, n);
    lemma_picks_spec(s, |t: FieldTag| t.searchable, n);
}

/// Every position in a derived field-set addresses a field of the schema.
pub proof fn lemma_partition_bounds(s: Seq<FieldDef>)
    requires
        s.len() <= usize::MAX,
    ensures
        forall|k: int|
            0 <= k < create_required_upto(s, s.len() as int).len() ==> (
            #[trigger] create_required_upto(s, s.len() as int)[k]) < s.len(),
        forall|k: int|
            0 <= k < create_optional_upto(s, s.len() as int).len() ==> (
            #[trigger] create_optional_upto(s, s.len() as int)[k]) < s.len(),
        forall|k: int|
            0 <= k < update_required_upto(s, s.len() as int).len() ==> (
            #[trigger] update_required_upto(s, s.len() as int)[k]) < s.len(),
        forall|k: int|
            0 <= k < update_optional_upto(s, s.len() as int).len() ==> (
            #[trigger] update_optional_upto(s, s.len() as int)[k]) < s.len(),
        forall|k: int|
            0 <= k < versioned_upto(s, s.len() as int).len() ==> (#[trigger] versioned_upto(
                s,
                s.len() as int,
            )[k]) < s.len(),
        forall|k: int|
            0 <= k < not_versioned_upto(s, s.len() as int).len() ==> (
            #[trigger] not_versioned_upto(s, s.len() as int)[k]) < s.len(),
        forall|k: int|
            0 <= k < searchable_upto(s, s.len() as int).len() ==> (#[trigger] searchable_upto(
                s,
                s.len() as int,
            )[k]) < s.len(),
{
    let n = s.len() as int;
    lemma_picks_spec(s, |t: FieldTag| t.create is Required, n);
    lemma_picks_spec(s, |t: FieldTag| t.create is Optional, n);
    lemma_picks_spec(s, |t: FieldTag| t.update is Required, n);
    lemma_picks_spec(s, |t: FieldTag| t.update is Optional, n);
    lemma_picks_spec(s, |t: FieldTag| t.versioned, n);
    lemma_picks_spec(s, |t: FieldTag| !t.versioned, n);
    lemma_picks_spec(s, |t: FieldTag| t.searchable, n);
}

/// Order within each derived field-set follows declaration order: the
/// positions in every set are strictly increasing.
pub proof fn lemma_partition_order(s: Seq<FieldDef>)
    requires
        s.len() <= usize::MAX,
    ensures
        forall|a: int, b: int|
            0 <= a < b < create_required_upto(s, s.len() as int).len() ==> create_required_upto(
                s,
                s.len() as int,
            )[a] < create_required_upto(s, s.len() as int)[b],
        forall|a: int, b: int|
            0 <= a < b < create_optional_upto(s, s.len() as int).len() ==> create_optional_upto(
                s,
                s.len() as int,
            )[a] < create_optional_upto(s, s.len() as int)[b],
        forall|a: int, b: int|
            0 <= a < b < update_required_upto(s, s.len() as int).len() ==> update_required_upto(
                s,
                s.len() as int,
            )[a] < update_required_upto(s, s.len() as int)[b],
        forall|a: int, b: int|
            0 <= a < b < update_optional_upto(s, s.len() as int).len() ==> update_optional_upto(
                s,
                s.len() as int,
            )[a] < update_optional_upto(s, s.len() as int)[b],
        forall|a: int, b: int|
            0 <= a < b < versioned_upto(s, s.len() as int).len() ==> versioned_upto(
                s,
                s.len() as int,
            )[a] < versioned_upto(s, s.len() as int)[b],
        forall|a: int, b: int|
            0 <= a < b < not_versioned_upto(s, s.len() as int).len() ==> not_versioned_upto(
                s,
                s.len() as int,
            )[a] < not_versioned_upto(s, s.len() as int)[b],
        forall|a: int, b: int|
            0 <= a < b < searchable_upto(s, s.len() as int).len() ==> searchable_upto(
                s,
                s.len() as int,
            )[a] < searchable_upto(s, s.len() as int)[b],
{
    let n = s.len() as int;
    lemma_picks_spec(s, |t: FieldTag| t.create is Required, n);
    lemma_picks_spec(s, |t: FieldTag| t.create is Optional, n);
    lemma_picks_spec(s, |t: FieldTag| t.update is Required, n);
    lemma_picks_spec(s, |t: FieldTag| t.update is Optional, n);
    lemma_picks_spec(s, |t: FieldTag| t.versioned, n);
    lemma_picks_spec(s, |t: FieldTag| !t.versioned, n);
    lemma_picks_spec(s, |t: FieldTag| t.searchable, n);
}

} // verus!
