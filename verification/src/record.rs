//! Entity records and their wire form.
//!
//! A record holds one value per schema field, in schema order.  On the wire
//! the versioned fields are merged into the same flat object as the
//! not-versioned fields (flatten semantics): the encoded object lists the
//! not-versioned fields first, then the versioned block, all at one
//! structural level.  The two logical sets stay separable through `split`,
//! which is how a revision-history entry reuses the versioned fields alone.

use vstd::prelude::*;
use vstd::pervasive::VecAdditionalExecFns;
use crate::Error;
use crate::json::{JsonValue, count_key, lookup_first};
use crate::schema::{
    FieldDef, Schema, lemma_partition_modes, lemma_partition_order, not_versioned_upto,
    unique_names, versioned_upto,
};

verus! {

/// An entity record: one value per schema field, in schema order.
#[derive(Debug, PartialEq)]
pub struct EntityRecord {
    pub values: Vec<JsonValue>,
}

/// The key-value pairs of the fields at the given positions, in that order.
pub open spec fn pairs_at(
    fields: Seq<FieldDef>,
    values: Seq<JsonValue>,
    idx: Seq<usize>,
) -> Seq<(String, JsonValue)> {
    idx.map_values(|i: usize| (fields[i as int].name, values[i as int]))
}

/// The values of the fields at the given positions, in that order.
pub open spec fn values_at(values: Seq<JsonValue>, idx: Seq<usize>) -> Seq<JsonValue> {
    idx.map_values(|i: usize| values[i as int])
}

/// The flat wire object of a record: the not-versioned fields first, then
/// the versioned fields, merged at one structural level.
pub open spec fn encode_pairs(fields: Seq<FieldDef>, values: Seq<JsonValue>) -> Seq<
    (String, JsonValue),
> {
    pairs_at(fields, values, not_versioned_upto(fields, fields.len() as int)) + pairs_at(
        fields,
        values,
        versioned_upto(fields, fields.len() as int),
    )
}

impl EntityRecord {
    /// The record carries one value per schema field.
    pub open spec fn wf(&self, schema: Schema) -> bool {
        self.values@.len() == schema.fields@.len()
    }

    /// Encodes the record into its flat wire object: the not-versioned
    /// fields first, then the versioned fields, all in one flat namespace.
    pub fn encode(self, schema: &Schema) -> (r: Vec<(String, JsonValue)>)
        requires
            self.wf(*schema),
        ensures
            r@ == encode_pairs(schema.fields@, self.values@),
    {
        let ghost fields = schema.fields@;
        let ghost orig = self.values@;
        let mut vals = self.values;
        let mut out_nv: Vec<(String, JsonValue)> = Vec::new();
        let mut out_v: Vec<(String, JsonValue)> = Vec::new();
        let n = schema.fields.len();
        let mut i: usize = 0;
        proof {
            assert(orig.skip(0) =~= orig);
        }
        while i < n
            invariant
                0 <= i <= n == fields.len(),
                fields == schema.fields@,
                orig.len() == fields.len(),
                vals@ == orig.skip(i as int),
                out_nv@ == pairs_at(fields, orig, not_versioned_upto(fields, i as int)),
                out_v@ == pairs_at(fields, orig, versioned_upto(fields, i as int)),
            decreases n - i,
        {
            let v = vals.remove(0);
            proof {
                assert(orig.skip(i as int)[0] == orig[i as int]);
                assert(orig.skip(i as int).drop_first() =~= orig.skip(i + 1));
            }
            let name = schema.fields[i].name.clone();
            if schema.fields[i].tag.versioned {
                out_v.push((name, v));
                proof {
                    assert(versioned_upto(fields, i + 1) == versioned_upto(fields, i as int).push(
                        i,
                    ));
                    assert(out_v@ =~= pairs_at(fields, orig, versioned_upto(fields, i + 1)));
                    assert(not_versioned_upto(fields, i + 1) == not_versioned_upto(
                        fields,
                        i as int,
                    ));
                }
            } else {
                out_nv.push((name, v));
                proof {
                    assert(not_versioned_upto(fields, i + 1) == not_versioned_upto(
                        fields,
                        i as int,
                    ).push(i));
                    assert(out_nv@ =~= pairs_at(fields, orig, not_versioned_upto(fields, i + 1)));
                    assert(versioned_upto(fields, i + 1) == versioned_upto(fields, i as int));
                }
            }
            i = i + 1;
        }
        let mut out = out_nv;
        out.append(&mut out_v);
        out
    }

    /// Separates the record into its not-versioned and versioned values,
    /// each in schema order.  The versioned half is the shape a single
    /// revision-history entry reuses.
    pub fn split(self, schema: &Schema) -> (r: (Vec<JsonValue>, Vec<JsonValue>))
        requires
            self.wf(*schema),
        ensures
            r.0@ == values_at(
                self.values@,
                not_versioned_upto(schema.fields@, schema.fields@.len() as int),
            ),
            r.1@ == values_at(
                self.values@,
                versioned_upto(schema.fields@, schema.fields@.len() as int),
            ),
    {
        let ghost fields = schema.fields@;
        let ghost orig = self.values@;
        let mut vals = self.values;
        let mut out_nv: Vec<JsonValue> = Vec::new();
        let mut out_v: Vec<JsonValue> = Vec::new();
        let n = schema.fields.len();
        let mut i: usize = 0;
        proof {
            assert(orig.skip(0) =~= orig);
        }
        while i < n
            invariant
                0 <= i <= n == fields.len(),
                fields == schema.fields@,
                orig.len() == fields.len(),
                vals@ == orig.skip(i as int),
                out_nv@ == values_at(orig, not_versioned_upto(fields, i as int)),
                out_v@ == values_at(orig, versioned_upto(fields, i as int)),
            decreases n - i,
        {
            let v = vals.remove(0);
            proof {
                assert(orig.skip(i as int)[0] == orig[i as int]);
                assert(orig.skip(i as int).drop_first() =~= orig.skip(i + 1));
            }
            if schema.fields[i].tag.versioned {
                out_v.push(v);
                proof {
                    assert(versioned_upto(fields, i + 1) == versioned_upto(fields, i as int).push(
                        i,
                    ));
                    assert(out_v@ =~= values_at(orig, versioned_upto(fields, i + 1)));
                    assert(not_versioned_upto(fields, i + 1) == not_versioned_upto(
                        fields,
                        i as int,
                    ));
                }
            } else {
                out_nv.push(v);
                proof {
                    assert(not_versioned_upto(fields, i + 1) == not_versioned_upto(
                        fields,
                        i as int,
                    ).push(i));
                    assert(out_nv@ =~= values_at(orig, not_versioned_upto(fields, i + 1)));
                    assert(versioned_upto(fields, i + 1) == versioned_upto(fields, i as int));
                }
            }
            i = i + 1;
        }
        (out_nv, out_v)
    }

    /// Decodes a flat wire object into a record of the schema, looking every
    /// field up by name, wherever it stands in the object.  Unknown keys are
    /// ignored.  Succeeds exactly when every schema field occurs exactly
    /// once; a missing or repeated field is a decoding error.
    pub fn decode(schema: &Schema, pairs: Vec<(String, JsonValue)>) -> (r: Result<
        EntityRecord,
        Error,
    >)
        requires
            schema.wf(),
        ensures
            r is Ok <==> forall|i: int|
                0 <= i < schema.fields@.len() ==> count_key(
                    pairs@,
                    (#[trigger] schema.fields@[i].name)@,
                ) == 1,
            r matches Ok(rec) ==> {
                &&& rec.wf(*schema)
                &&& forall|i: int|
                    0 <= i < schema.fields@.len() ==> Some(#[trigger] rec.values@[i])
                        == lookup_first(pairs@, schema.fields@[i].name@)
            },
            r is Err ==> r == Err::<EntityRecord, Error>(Error::Decode),
    {
        let ghost fields = schema.fields@;
        let ghost orig = pairs@;
        let n = schema.fields.len();
        let mut slots: Vec<Option<JsonValue>> = Vec::new();
        let mut j: usize = 0;
        while j < n
            invariant
                0 <= j <= n,
                slots@.len() == j,
                forall|k: int| 0 <= k < j ==> (#[trigger] slots@[k]) is None,
            decreases n - j,
        {
            slots.push(None);
            j = j + 1;
        }
        let mut rest = pairs;
        proof {
            assert(orig.take(orig.len() as int) =~= orig);
            assert(orig.skip(orig.len() as int) =~= Seq::<(String, JsonValue)>::empty());
        }
        while rest.len() > 0
            invariant
                schema.wf(),
                fields == schema.fields@,
                orig == pairs@,
                slots@.len() == fields.len() == n,
                rest@.len() <= orig.len(),
                rest@ == orig.take(rest@.len() as int),
                forall|i: int|
                    0 <= i < fields.len() ==> count_key(
                        orig.skip(rest@.len() as int),
                        (#[trigger] fields[i].name)@,
                    ) <= 1,
                forall|i: int|
                    0 <= i < fields.len() ==> ((#[trigger] slots@[i]) is Some <==> count_key(
                        orig.skip(rest@.len() as int),
                        fields[i].name@,
                    ) == 1),
                forall|i: int|
                    0 <= i < fields.len() && (#[trigger] slots@[i]) is Some ==> lookup_first(
                        orig.skip(rest@.len() as int),
                        fields[i].name@,
                    ) == Some(slots@[i]->0),
            decreases rest@.len(),
        {
            let ghost m = rest@.len() as int;
            let p = rest.pop().unwrap();
            proof {
                assert(orig.take(m)[m - 1] == orig[m - 1]);
                assert(rest@ =~= orig.take(m - 1));
                assert(orig.skip(m - 1) =~= seq![orig[m - 1]] + orig.skip(m));
                assert((seq![orig[m - 1]] + orig.skip(m)).drop_first() =~= orig.skip(m));
            }
            let ghost processed = orig.skip(m);
            let ghost processed2 = orig.skip(m - 1);
            match schema.find_field(p.0.as_str()) {
                Some(idx) => {
                    if slots[idx].is_some() {
                        proof {
                            lemma_count_key_append(orig.take(m - 1), processed2, fields[idx as int].name@);
                            assert(orig.take(m - 1) + processed2 =~= orig);
                            assert(count_key(orig, fields[idx as int].name@) >= 2);
                        }
                        return Err(Error::Decode);
                    }
                    let (_, value) = p;
                    slots.set(idx, Some(value));
                    proof {
                        assert forall|i: int| 0 <= i < fields.len() && i != idx implies (
                        #[trigger] fields[i].name)@ != fields[idx as int].name@ by {
                            if i < idx {
                                assert(fields[i].name@ != fields[idx as int].name@);
                            }
                        }
                    }
                },
                None => {
                },
            }
        }
        proof {
            assert(orig.skip(0) =~= orig);
        }
        let ghost final_slots = slots@;
        let mut values: Vec<JsonValue> = Vec::new();
        while slots.len() > 0
            invariant
                slots@.len() <= final_slots.len(),
                slots@ == final_slots.take(slots@.len() as int),
                fields == schema.fields@,
                orig == pairs@,
                final_slots.len() == fields.len(),
                forall|i: int|
                    0 <= i < fields.len() ==> ((#[trigger] final_slots[i]) is Some <==> count_key(
                        orig,
                        fields[i].name@,
                    ) == 1),
                forall|i: int|
                    0 <= i < fields.len() && (#[trigger] final_slots[i]) is Some ==> lookup_first(
                        orig,
                        fields[i].name@,
                    ) == Some(final_slots[i]->0),
                values@.len() == final_slots.len() - slots@.len(),
                forall|k: int|
                    0 <= k < values@.len() ==> (#[trigger] values@[k]) == final_slots[k
                        + slots@.len()]->0 && final_slots[k + slots@.len()] is Some,
            decreases slots@.len(),
        {
            let ghost sl = slots@.len() as int;
            let slot = slots.pop().unwrap();
            proof {
                assert(final_slots.take(sl)[sl - 1] == final_slots[sl - 1]);
                assert(slots@ =~= final_slots.take(sl - 1));
            }
            match slot {
                Some(v) => {
                    values.insert(0, v);
                },
                None => {
                    return Err(Error::Decode);
                },
            }
        }
        proof {
            assert forall|i: int|
                0 <= i < fields.len() implies count_key(orig, (#[trigger] fields[i].name)@) == 1
                && lookup_first(orig, fields[i].name@) == Some(values@[i]) by {
                assert(values@[i] == final_slots[i]->0);
                assert(final_slots[i] is Some);
            }
        }
        Ok(EntityRecord { values })
    }
}

/// Key counting and first lookup distribute over concatenation.
pub proof fn lemma_count_key_append(
    a: Seq<(String, JsonValue)>,
    b: Seq<(String, JsonValue)>,
    key: Seq<char>,
)
    ensures
        count_key(a + b, key) == count_key(a, key) + count_key(b, key),
        lookup_first(a + b, key) == if lookup_first(a, key) is Some {
            lookup_first(a, key)
        } else {
            lookup_first(b, key)
        },
    decreases a.len(),
{
    if a.len() == 0 {
        assert(a + b =~= b);
    } else {
        assert((a + b)[0] == a[0]);
        assert((a + b).drop_first() =~= a.drop_first() + b);
        lemma_count_key_append(a.drop_first(), b, key);
    }
}

/// How often position `i` occurs in a position list.
pub open spec fn count_idx(idx: Seq<usize>, i: usize) -> nat
    decreases idx.len(),
{
    if idx.len() == 0 {
        0
    } else {
        (if idx[0] == i {
            1nat
        } else {
            0nat
        }) + count_idx(idx.drop_first(), i)
    }
}

/// In a pair block drawn from distinct-named fields, the key of field `i`
/// occurs as often as position `i` occurs in the block's position list, and
/// the first matching pair carries that field's value.
pub proof fn lemma_pairs_at_key(
    fields: Seq<FieldDef>,
    values: Seq<JsonValue>,
    idx: Seq<usize>,
    i: usize,
)
    requires
        unique_names(fields),
        values.len() == fields.len(),
        i < fields.len(),
        forall|k: int| 0 <= k < idx.len() ==> (#[trigger] idx[k]) < fields.len(),
    ensures
        count_key(pairs_at(fields, values, idx), fields[i as int].name@) == count_idx(idx, i),
        count_idx(idx, i) > 0 ==> lookup_first(pairs_at(fields, values, idx), fields[i as int].name@)
            == Some(values[i as int]),
        count_idx(idx, i) == 0 ==> lookup_first(
            pairs_at(fields, values, idx),
            fields[i as int].name@,
        ) is None,
    decreases idx.len(),
{
    let ps = pairs_at(fields, values, idx);
    if idx.len() == 0 {
        assert(ps.len() == 0);
    } else {
        assert(ps[0] == (fields[idx[0] as int].name, values[idx[0] as int]));
        assert(ps.drop_first() =~= pairs_at(fields, values, idx.drop_first()));
        lemma_pairs_at_key(fields, values, idx.drop_first(), i);
        if idx[0] == i {
        } else {
            assert(fields[idx[0] as int].name@ != fields[i as int].name@) by {
                if idx[0] < i {
                    assert(fields[idx[0] as int].name@ != fields[i as int].name@);
                } else {
                    assert(fields[i as int].name@ != fields[idx[0] as int].name@);
                }
            }
        }
    }
}

/// A strictly increasing position list holds a position at most once, and
/// holds it exactly once when it contains it.
pub proof fn lemma_sorted_count(idx: Seq<usize>, i: usize)
    requires
        forall|a: int, b: int| 0 <= a < b < idx.len() ==> idx[a] < idx[b],
    ensures
        count_idx(idx, i) == if idx.contains(i) {
            1nat
        } else {
            0nat
        },
    decreases idx.len(),
{
    if idx.len() > 0 {
        let rest = idx.drop_first();
        assert(forall|a: int, b: int| 0 <= a < b < rest.len() ==> rest[a] < rest[b]);
        lemma_sorted_count(rest, i);
        if idx[0] == i {
            assert(!rest.contains(i)) by {
                if rest.contains(i) {
                    let k = choose|k: int| 0 <= k < rest.len() && rest[k] == i;
                    assert(idx[k + 1] == i);
                    assert(idx[0] < idx[k + 1]);
                }
            }
            assert(idx.contains(i)) by {
                assert(idx[0] == i);
            }
        } else {
            assert(idx.contains(i) <==> rest.contains(i)) by {
                if idx.contains(i) {
                    let k = choose|k: int| 0 <= k < idx.len() && idx[k] == i;
                    assert(rest[k - 1] == i);
                }
                if rest.contains(i) {
                    let k = choose|k: int| 0 <= k < rest.len() && rest[k] == i;
                    assert(idx[k + 1] == i);
                }
            }
        }
    }
}

/// Round trip: in the encoded wire object of a record over a schema with
/// distinct field names, every schema field occurs exactly once, and looking
/// it up yields exactly the record's value for that field — versioned and
/// not-versioned fields alike, in one flat namespace.  Together with the
/// contract of `decode` this means decoding an encoded record reproduces
/// every field value exactly.
pub proof fn lemma_entity_round_trip(fields: Seq<FieldDef>, values: Seq<JsonValue>)
    requires
        unique_names(fields),
        values.len() == fields.len(),
        fields.len() <= usize::MAX,
    ensures
        forall|i: int|
            0 <= i < fields.len() ==> count_key(
                encode_pairs(fields, values),
                (#[trigger] fields[i].name)@,
            ) == 1,
        forall|i: int|
            0 <= i < fields.len() ==> lookup_first(
                encode_pairs(fields, values),
                (#[trigger] fields[i].name)@,
            ) == Some(values[i]),
{
    let n = fields.len() as int;
    let nv = not_versioned_upto(fields, n);
    let vv = versioned_upto(fields, n);
    let nv_pairs = pairs_at(fields, values, nv);
    let v_pairs = pairs_at(fields, values, vv);
    lemma_partition_modes(fields);
    lemma_partition_order(fields);
    crate::schema::lemma_partition_bounds(fields);
    assert forall|i: int|
        0 <= i < fields.len() implies count_key(encode_pairs(fields, values), (#[trigger] fields[i].name)@)
        == 1 && lookup_first(encode_pairs(fields, values), fields[i].name@) == Some(values[i]) by {
        let iu = i as usize;
        let key = fields[i].name@;
        lemma_count_key_append(nv_pairs, v_pairs, key);
        lemma_pairs_at_key(fields, values, nv, iu);
        lemma_pairs_at_key(fields, values, vv, iu);
        lemma_sorted_count(nv, iu);
        lemma_sorted_count(vv, iu);
        if fields[i].tag.versioned {
            assert(vv.contains(iu));
            assert(!nv.contains(iu));
        } else {
            assert(nv.contains(iu));
            assert(!vv.contains(iu));
        }
    }
}

} // verus!
