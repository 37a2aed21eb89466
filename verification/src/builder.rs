//! Create and update builders.
//!
//! Both synthesized builder shapes share one value-level form: the required
//! fields of the addressed field-set are supplied at construction, in schema
//! order; the optional fields default to absent and are set through a
//! chainable, by-value setter.  Fields outside the two sets never appear in
//! the builder, and therefore never appear in its wire payload.

use vstd::prelude::*;
use vstd::pervasive::VecAdditionalExecFns;
use crate::json::JsonValue;
use crate::schema::{
    FieldDef, Schema, SchemaError, create_optional_upto, create_required_upto,
    lemma_partition_bounds, update_optional_upto, update_required_upto,
};
use crate::text::str_eq;

verus! {

/// The names of the fields at the given positions, in that order.
pub open spec fn names_seq(fields: Seq<FieldDef>, idx: Seq<usize>) -> Seq<String> {
    idx.map_values(|i: usize| fields[i as int].name)
}

/// The position of the first element of `ns` reading `key`, if any.
pub open spec fn first_index_named(ns: Seq<String>, key: Seq<char>) -> Option<int>
    decreases ns.len(),
{
    if ns.len() == 0 {
        None
    } else if ns[0]@ == key {
        Some(0)
    } else {
        match first_index_named(ns.drop_first(), key) {
            Some(i) => Some(i + 1),
            None => None,
        }
    }
}

/// A scan that saw no match up to `i` determines the first match.
pub proof fn lemma_first_index_named(ns: Seq<String>, key: Seq<char>, i: int)
    requires
        0 <= i <= ns.len(),
        forall|k: int| 0 <= k < i ==> (#[trigger] ns[k])@ != key,
    ensures
        i < ns.len() && ns[i]@ == key ==> first_index_named(ns, key) == Some(i),
        i == ns.len() ==> first_index_named(ns, key) is None,
    decreases ns.len(),
{
    if ns.len() > 0 {
        if ns[0]@ == key {
        } else {
            if i > 0 {
                lemma_first_index_named(ns.drop_first(), key, i - 1);
            } else {
                lemma_first_index_named(ns.drop_first(), key, 0);
            }
        }
    }
}

/// The key-value pairs of the required fields from position `i` on.
pub open spec fn required_pairs_from(
    names: Seq<String>,
    values: Seq<JsonValue>,
    i: int,
) -> Seq<(String, JsonValue)>
    decreases names.len() - i,
{
    if i < 0 || i >= names.len() {
        Seq::empty()
    } else {
        seq![(names[i], values[i])] + required_pairs_from(names, values, i + 1)
    }
}

/// The key-value pairs of the set optional fields from position `i` on;
/// absent fields contribute nothing.
pub open spec fn optional_pairs_from(
    names: Seq<String>,
    values: Seq<Option<JsonValue>>,
    i: int,
) -> Seq<(String, JsonValue)>
    decreases names.len() - i,
{
    if i < 0 || i >= names.len() {
        Seq::empty()
    } else {
        match values[i] {
            Some(v) => seq![(names[i], v)] + optional_pairs_from(names, values, i + 1),
            None => optional_pairs_from(names, values, i + 1),
        }
    }
}

/// How many optional fields are set from position `i` on.
pub open spec fn count_set(values: Seq<Option<JsonValue>>, i: int) -> int
    decreases values.len() - i,
{
    if i < 0 || i >= values.len() {
        0
    } else {
        (if values[i] is Some {
            1int
        } else {
            0int
        }) + count_set(values, i + 1)
    }
}

/// A create or update builder: required fields fixed at construction,
/// optional fields settable and defaulting to absent.
#[derive(Debug)]
pub struct EntityBuilder {
    pub required_names: Vec<String>,
    pub required_values: Vec<JsonValue>,
    pub optional_names: Vec<String>,
    pub optional_values: Vec<Option<JsonValue>>,
}

/// The wire pairs of a builder: the required fields in schema order, then
/// the set optional fields in schema order.
pub open spec fn builder_pairs(b: EntityBuilder) -> Seq<(String, JsonValue)> {
    required_pairs_from(b.required_names@, b.required_values@, 0) + optional_pairs_from(
        b.optional_names@,
        b.optional_values@,
        0,
    )
}

/// Clones the names of the fields at the given positions.
fn names_of_indices(schema: &Schema, idx: &Vec<usize>) -> (r: Vec<String>)
    requires
        forall|k: int| 0 <= k < idx@.len() ==> (#[trigger] idx@[k]) < schema.fields@.len(),
    ensures
        r@ == names_seq(schema.fields@, idx@),
{
    let mut r: Vec<String> = Vec::new();
    let n = idx.len();
    let mut k: usize = 0;
    while k < n
        invariant
            0 <= k <= n == idx@.len(),
            forall|j: int| 0 <= j < idx@.len() ==> (#[trigger] idx@[j]) < schema.fields@.len(),
            r@ == names_seq(schema.fields@, idx@.take(k as int)),
        decreases n - k,
    {
        let i = idx[k];
        r.push(schema.fields[i].name.clone());
        proof {
            assert(idx@.take(k + 1).drop_last() =~= idx@.take(k as int));
            assert(idx@.take(k + 1) =~= idx@.take(k as int).push(idx@[k as int]));
            assert(r@ =~= names_seq(schema.fields@, idx@.take(k + 1)));
        }
        k = k + 1;
    }
    proof {
        assert(idx@.take(n as int) =~= idx@);
    }
    r
}

impl EntityBuilder {
    /// Required and optional slots line up with their names.
    pub open spec fn wf(&self) -> bool {
        &&& self.required_names@.len() == self.required_values@.len()
        &&& self.optional_names@.len() == self.optional_values@.len()
    }

    /// Builds a builder over explicit required and optional name sets.
    fn assemble(
        schema: &Schema,
        required_idx: &Vec<usize>,
        optional_idx: &Vec<usize>,
        required_values: Vec<JsonValue>,
    ) -> (r: Result<EntityBuilder, SchemaError>)
        requires
            forall|k: int|
                0 <= k < required_idx@.len() ==> (#[trigger] required_idx@[k])
                    < schema.fields@.len(),
            forall|k: int|
                0 <= k < optional_idx@.len() ==> (#[trigger] optional_idx@[k])
                    < schema.fields@.len(),
        ensures
            r is Ok <==> required_values@.len() == required_idx@.len(),
            r matches Ok(b) ==> {
                &&& b.wf()
                &&& b.required_names@ == names_seq(schema.fields@, required_idx@)
                &&& b.required_values == required_values
                &&& b.optional_names@ == names_seq(schema.fields@, optional_idx@)
                &&& b.optional_values@.len() == optional_idx@.len()
                &&& forall|j: int|
                    0 <= j < b.optional_values@.len() ==> (#[trigger] b.optional_values@[j])
                        is None
            },
            r is Err ==> r == Err::<EntityBuilder, SchemaError>(SchemaError::ArityMismatch),
    {
        if required_values.len() != required_idx.len() {
            return Err(SchemaError::ArityMismatch);
        }
        let required_names = names_of_indices(schema, required_idx);
        let optional_names = names_of_indices(schema, optional_idx);
        let mut optional_values: Vec<Option<JsonValue>> = Vec::new();
        let n = optional_names.len();
        let mut j: usize = 0;
        while j < n
            invariant
                0 <= j <= n,
                optional_values@.len() == j,
                forall|k: int| 0 <= k < j ==> (#[trigger] optional_values@[k]) is None,
            decreases n - j,
        {
            optional_values.push(None);
            j = j + 1;
        }
        Ok(EntityBuilder { required_names, required_values, optional_names, optional_values })
    }

    /// The create builder of a schema: the create-required fields are the
    /// constructor arguments, in schema order; the create-optional fields
    /// start absent.  Fields in neither create set are not present at all.
    pub fn new_create(schema: &Schema, required_values: Vec<JsonValue>) -> (r: Result<
        EntityBuilder,
        SchemaError,
    >)
        ensures
            r is Ok <==> required_values@.len() == create_required_upto(
                schema.fields@,
                schema.fields@.len() as int,
            ).len(),
            r matches Ok(b) ==> {
                &&& b.wf()
                &&& b.required_names@ == names_seq(
                    schema.fields@,
                    create_required_upto(schema.fields@, schema.fields@.len() as int),
                )
                &&& b.required_values == required_values
                &&& b.optional_names@ == names_seq(
                    schema.fields@,
                    create_optional_upto(schema.fields@, schema.fields@.len() as int),
                )
                &&& b.optional_values@.len() == create_optional_upto(
                    schema.fields@,
                    schema.fields@.len() as int,
                ).len()
                &&& forall|j: int|
                    0 <= j < b.optional_values@.len() ==> (#[trigger] b.optional_values@[j])
                        is None
            },
            r is Err ==> r == Err::<EntityBuilder, SchemaError>(SchemaError::ArityMismatch),
    {
        let part = schema.partition();
        proof {
            vstd::std_specs::vec::axiom_spec_len(&schema.fields);
            lemma_partition_bounds(schema.fields@);
        }
        EntityBuilder::assemble(schema, &part.create_required, &part.create_optional, required_values)
    }

    /// The update builder of a schema, over the update field-sets.
    pub fn new_update(schema: &Schema, required_values: Vec<JsonValue>) -> (r: Result<
        EntityBuilder,
        SchemaError,
    >)
        ensures
            r is Ok <==> required_values@.len() == update_required_upto(
                schema.fields@,
                schema.fields@.len() as int,
            ).len(),
            r matches Ok(b) ==> {
                &&& b.wf()
                &&& b.required_names@ == names_seq(
                    schema.fields@,
                    update_required_upto(schema.fields@, schema.fields@.len() as int),
                )
                &&& b.required_values == required_values
                &&& b.optional_names@ == names_seq(
                    schema.fields@,
                    update_optional_upto(schema.fields@, schema.fields@.len() as int),
                )
                &&& b.optional_values@.len() == update_optional_upto(
                    schema.fields@,
                    schema.fields@.len() as int,
                ).len()
                &&& forall|j: int|
                    0 <= j < b.optional_values@.len() ==> (#[trigger] b.optional_values@[j])
                        is None
            },
            r is Err ==> r == Err::<EntityBuilder, SchemaError>(SchemaError::ArityMismatch),
    {
        let part = schema.partition();
        proof {
            vstd::std_specs::vec::axiom_spec_len(&schema.fields);
            lemma_partition_bounds(schema.fields@);
        }
        EntityBuilder::assemble(schema, &part.update_required, &part.update_optional, required_values)
    }

    /// Sets the optional field named `name`, returning the updated builder.
    /// A name outside the optional field-set is rejected.
    pub fn set(self, name: &str, value: JsonValue) -> (r: Result<EntityBuilder, SchemaError>)
        requires
            self.wf(),
        ensures
            r is Ok <==> first_index_named(self.optional_names@, name@) is Some,
            r matches Ok(b) ==> {
                &&& b.wf()
                &&& b.required_names == self.required_names
                &&& b.required_values == self.required_values
                &&& b.optional_names == self.optional_names
                &&& b.optional_values@ == self.optional_values@.update(
                    first_index_named(self.optional_names@, name@)->0,
                    Some(value),
                )
            },
            r is Err ==> r == Err::<EntityBuilder, SchemaError>(SchemaError::UnknownField),
    {
        let mut b = self;
        let n = b.optional_names.len();
        let mut i: usize = 0;
        while i < n
            invariant
                b == self,
                self.wf(),
                0 <= i <= n == b.optional_names@.len(),
                forall|k: int| 0 <= k < i ==> (#[trigger] b.optional_names@[k])@ != name@,
            decreases n - i,
        {
            if str_eq(b.optional_names[i].as_str(), name) {
                proof {
                    lemma_first_index_named(b.optional_names@, name@, i as int);
                }
                b.optional_values.set(i, Some(value));
                return Ok(b);
            }
            i = i + 1;
        }
        proof {
            lemma_first_index_named(b.optional_names@, name@, n as int);
        }
        Err(SchemaError::UnknownField)
    }

    /// Collapses the builder into its wire object: the required fields in
    /// schema order, then exactly the optional fields that have been set.
    /// Absent optional fields are omitted entirely.
    pub fn to_json(self) -> (r: JsonValue)
        requires
            self.wf(),
        ensures
            r matches JsonValue::Obj(pairs) && pairs@ == builder_pairs(self),
    {
        let ghost orig = self;
        let mut b = self;
        let mut pairs: Vec<(String, JsonValue)> = Vec::new();
        proof {
            assert(orig.optional_names@.take(orig.optional_names@.len() as int)
                =~= orig.optional_names@);
            assert(orig.optional_values@.take(orig.optional_values@.len() as int)
                =~= orig.optional_values@);
        }
        while b.optional_values.len() > 0
            invariant
                orig.wf(),
                b.required_names == orig.required_names,
                b.required_values == orig.required_values,
                b.optional_names@.len() == b.optional_values@.len(),
                b.optional_values@.len() <= orig.optional_values@.len(),
                b.optional_names@ == orig.optional_names@.take(b.optional_names@.len() as int),
                b.optional_values@ == orig.optional_values@.take(b.optional_values@.len() as int),
                pairs@ == optional_pairs_from(
                    orig.optional_names@,
                    orig.optional_values@,
                    b.optional_values@.len() as int,
                ),
            decreases b.optional_values@.len(),
        {
            let ghost j = b.optional_values@.len() as int;
            let ov = b.optional_values.pop().unwrap();
            let name = b.optional_names.pop().unwrap();
            proof {
                assert(orig.optional_values@.take(j)[j - 1] == orig.optional_values@[j - 1]);
                assert(orig.optional_names@.take(j)[j - 1] == orig.optional_names@[j - 1]);
                assert(b.optional_values@ =~= orig.optional_values@.take(j - 1));
                assert(b.optional_names@ =~= orig.optional_names@.take(j - 1));
            }
            match ov {
                Some(v) => {
                    pairs.insert(0, (name, v));
                    proof {
                        assert(pairs@ =~= optional_pairs_from(
                            orig.optional_names@,
                            orig.optional_values@,
                            j - 1,
                        ));
                    }
                },
                None => {},
            }
        }
        proof {
            assert(pairs@ == optional_pairs_from(orig.optional_names@, orig.optional_values@, 0));
        }
        let ghost opt_all = optional_pairs_from(orig.optional_names@, orig.optional_values@, 0);
        proof {
            assert(orig.required_names@.take(orig.required_names@.len() as int)
                =~= orig.required_names@);
            assert(orig.required_values@.take(orig.required_values@.len() as int)
                =~= orig.required_values@);
            assert(required_pairs_from(
                orig.required_names@,
                orig.required_values@,
                orig.required_values@.len() as int,
            ) + opt_all =~= opt_all);
        }
        while b.required_values.len() > 0
            invariant
                orig.wf(),
                b.required_names@.len() == b.required_values@.len(),
                b.required_values@.len() <= orig.required_values@.len(),
                b.required_names@ == orig.required_names@.take(b.required_names@.len() as int),
                b.required_values@ == orig.required_values@.take(b.required_values@.len() as int),
                pairs@ == required_pairs_from(
                    orig.required_names@,
                    orig.required_values@,
                    b.required_values@.len() as int,
                ) + opt_all,
                opt_all == optional_pairs_from(orig.optional_names@, orig.optional_values@, 0),
            decreases b.required_values@.len(),
        {
            let ghost j = b.required_values@.len() as int;
            let v = b.required_values.pop().unwrap();
            let name = b.required_names.pop().unwrap();
            proof {
                assert(orig.required_values@.take(j)[j - 1] == orig.required_values@[j - 1]);
                assert(orig.required_names@.take(j)[j - 1] == orig.required_names@[j - 1]);
                assert(b.required_values@ =~= orig.required_values@.take(j - 1));
                assert(b.required_names@ =~= orig.required_names@.take(j - 1));
            }
            pairs.insert(0, (name, v));
            proof {
                assert(pairs@ =~= required_pairs_from(
                    orig.required_names@,
                    orig.required_values@,
                    j - 1,
                ) + opt_all);
            }
        }
        proof {
            assert(pairs@ == builder_pairs(orig));
        }
        JsonValue::Obj(pairs)
    }
}

/// Shape of the pairs of the required block: one pair per required field,
/// in order, carrying that field's value.
pub proof fn lemma_required_pairs(names: Seq<String>, values: Seq<JsonValue>, i: int)
    requires
        names.len() == values.len(),
        0 <= i <= names.len(),
    ensures
        required_pairs_from(names, values, i).len() == names.len() - i,
        forall|k: int|
            0 <= k < names.len() - i ==> #[trigger] required_pairs_from(names, values, i)[k] == (
            names[i + k],
            values[i + k],
        ),
    decreases names.len() - i,
{
    if i < names.len() {
        lemma_required_pairs(names, values, i + 1);
    }
}

/// Shape of the pairs of the optional block: one pair per set field, in
/// order, and nothing else.
pub proof fn lemma_optional_pairs(names: Seq<String>, values: Seq<Option<JsonValue>>, i: int)
    requires
        names.len() == values.len(),
        0 <= i <= names.len(),
    ensures
        optional_pairs_from(names, values, i).len() == count_set(values, i),
        forall|k: int|
            0 <= k < optional_pairs_from(names, values, i).len() ==> names.subrange(
                i,
                names.len() as int,
            ).contains((#[trigger] optional_pairs_from(names, values, i)[k]).0),
        forall|j: int|
            i <= j < names.len() && values[j] is Some ==> optional_pairs_from(
                names,
                values,
                i,
            ).contains((names[j], #[trigger] values[j]->0)),
    decreases names.len() - i,
{
    if i < names.len() {
        lemma_optional_pairs(names, values, i + 1);
        let cur = optional_pairs_from(names, values, i);
        let rest = optional_pairs_from(names, values, i + 1);
        match values[i] {
            Some(v) => {
                assert(cur == seq![(names[i], v)] + rest);
                assert forall|j: int|
                    i <= j < names.len() && values[j] is Some implies cur.contains(
                    (names[j], #[trigger] values[j]->0),
                ) by {
                    if j == i {
                        assert(cur[0] == (names[i], v));
                    } else {
                        assert(rest.contains((names[j], values[j]->0)));
                        let k = choose|k: int|
                            0 <= k < rest.len() && rest[k] == (names[j], values[j]->0);
                        assert(cur[k + 1] == rest[k]);
                    }
                }
                let sub = names.subrange(i, names.len() as int);
                let subr = names.subrange(i + 1, names.len() as int);
                assert forall|k: int| 0 <= k < cur.len() implies sub.contains(
                    (#[trigger] cur[k]).0,
                ) by {
                    if k == 0 {
                        assert(sub[0] == names[i]);
                    } else {
                        assert(cur[k] == rest[k - 1]);
                        assert(subr.contains(rest[k - 1].0));
                        let m = choose|m: int| 0 <= m < subr.len() && subr[m] == rest[k - 1].0;
                        assert(sub[m + 1] == subr[m]);
                    }
                }
            },
            None => {
                assert(cur == rest);
                let sub = names.subrange(i, names.len() as int);
                let subr = names.subrange(i + 1, names.len() as int);
                assert forall|k: int| 0 <= k < cur.len() implies sub.contains(
                    (#[trigger] cur[k]).0,
                ) by {
                    assert(subr.contains(rest[k].0));
                    let m = choose|m: int| 0 <= m < subr.len() && subr[m] == rest[k].0;
                    assert(sub[m + 1] == subr[m]);
                }
            },
        }
    }
}

/// The builder's wire object carries exactly its own field-sets: every pair
/// is named by a required or an optional field, the required fields appear
/// first and in order, every set optional field appears, and the number of
/// pairs is the number of required fields plus the number of set optional
/// fields.  A field outside the builder's field-sets never appears, even if
/// it is present elsewhere in the schema.
pub proof fn lemma_builder_payload(b: EntityBuilder)
    requires
        b.wf(),
    ensures
        forall|k: int|
            0 <= k < builder_pairs(b).len() ==> b.required_names@.contains(
                (#[trigger] builder_pairs(b)[k]).0,
            ) || b.optional_names@.contains(builder_pairs(b)[k].0),
        forall|i: int|
            0 <= i < b.required_names@.len() ==> #[trigger] builder_pairs(b)[i] == (
            b.required_names@[i],
            b.required_values@[i],
        ),
        builder_pairs(b).len() == b.required_names@.len() + count_set(b.optional_values@, 0),
        forall|i: int|
            0 <= i < b.optional_values@.len() && b.optional_values@[i] is Some ==> builder_pairs(
                b,
            ).contains((b.optional_names@[i], #[trigger] b.optional_values@[i]->0)),
{
    lemma_required_pairs(b.required_names@, b.required_values@, 0);
    lemma_optional_pairs(b.optional_names@, b.optional_values@, 0);
    let req = required_pairs_from(b.required_names@, b.required_values@, 0);
    let opt = optional_pairs_from(b.optional_names@, b.optional_values@, 0);
    let all = builder_pairs(b);
    assert(all == req + opt);
    assert forall|k: int|
        0 <= k < all.len() implies b.required_names@.contains((#[trigger] all[k]).0)
        || b.optional_names@.contains(all[k].0) by {
        if k < req.len() {
            assert(all[k] == req[k]);
            assert(b.required_names@[k] == all[k].0);
        } else {
            assert(all[k] == opt[k - req.len()]);
            assert(b.optional_names@.subrange(0, b.optional_names@.len() as int)
                =~= b.optional_names@);
            assert(b.optional_names@.contains(opt[k - req.len()].0));
        }
    }
    assert forall|i: int|
        0 <= i < b.optional_values@.len() && b.optional_values@[i] is Some implies all.contains(
        (b.optional_names@[i], #[trigger] b.optional_values@[i]->0),
    ) by {
        let p = (b.optional_names@[i], b.optional_values@[i]->0);
        assert(opt.contains(p));
        let k = choose|k: int| 0 <= k < opt.len() && opt[k] == p;
        assert(all[req.len() + k] == p);
    }
}

} // verus!
