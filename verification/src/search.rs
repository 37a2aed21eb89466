//! Sparse search criteria.
//!
//! A search value carries one optional comparison-criterion slot per
//! searchable field of the schema.  A slot, once set, holds a query operator
//! paired with a value; unset slots are omitted from the wire payload
//! entirely, so only the fields the caller constrains are transmitted.

use vstd::prelude::*;
use vstd::pervasive::VecAdditionalExecFns;
use crate::builder::{first_index_named, lemma_first_index_named, names_seq};
use crate::json::JsonValue;
use crate::schema::{Schema, SchemaError, lemma_partition_bounds, searchable_upto};
use crate::text::str_eq;

verus! {

/// The comparison operator of one search criterion.
#[derive(Clone, Copy, Debug, PartialEq, Eq, Structural)]
pub enum QueryKind {
    Exact,
    Equals,
    NotEqual,
    LessThan,
    GreaterThan,
    LessOrEqual,
    GreaterOrEqual,
}

/// A comparison query: an operator paired with the value to compare with.
#[derive(Debug)]
pub struct SearchQuery {
    pub value: JsonValue,
    pub query: QueryKind,
}

/// One wire criterion: either a bare value, implying an exact match, or an
/// operator name paired with a value.
#[derive(Debug, PartialEq)]
pub enum Criteria {
    Value(JsonValue),
    Search(String, JsonValue),
}

/// `c` is the wire criterion denoted by the query `q`: a bare value for an
/// exact match, the operator's wire name paired with the value otherwise.
pub open spec fn criteria_matches(c: Criteria, q: SearchQuery) -> bool {
    match q.query {
        QueryKind::Exact => c == Criteria::Value(q.value),
        QueryKind::Equals => c matches Criteria::Search(op, v) && op@ == "eq"@ && v == q.value,
        QueryKind::NotEqual => c matches Criteria::Search(op, v) && op@ == "ne"@ && v == q.value,
        QueryKind::LessThan => c matches Criteria::Search(op, v) && op@ == "lt"@ && v == q.value,
        QueryKind::GreaterThan => c matches Criteria::Search(op, v) && op@ == "gt"@ && v
            == q.value,
        QueryKind::LessOrEqual => c matches Criteria::Search(op, v) && op@ == "le"@ && v
            == q.value,
        QueryKind::GreaterOrEqual => c matches Criteria::Search(op, v) && op@ == "ge"@ && v
            == q.value,
    }
}

impl SearchQuery {
    /// Collapses the query into its wire criterion.
    pub fn to_criteria(self) -> (r: Criteria)
        ensures
            criteria_matches(r, self),
    {
        match self.query {
            QueryKind::Exact => Criteria::Value(self.value),
            QueryKind::Equals => Criteria::Search("eq".to_owned(), self.value),
            QueryKind::NotEqual => Criteria::Search("ne".to_owned(), self.value),
            QueryKind::LessThan => Criteria::Search("lt".to_owned(), self.value),
            QueryKind::GreaterThan => Criteria::Search("gt".to_owned(), self.value),
            QueryKind::LessOrEqual => Criteria::Search("le".to_owned(), self.value),
            QueryKind::GreaterOrEqual => Criteria::Search("ge".to_owned(), self.value),
        }
    }
}

/// `pair` is the wire pair of the criterion `c` on the field named `name`:
/// the bare value for an exact match, a one-pair object `{operator: value}`
/// otherwise.
pub open spec fn pair_matches_slot(pair: (String, JsonValue), name: String, c: Criteria) -> bool {
    &&& pair.0@ == name@
    &&& match c {
        Criteria::Value(v) => pair.1 == v,
        Criteria::Search(op, v) => pair.1 matches JsonValue::Obj(q) && q@.len() == 1 && q@[0].0@
            == op@ && q@[0].1 == v,
    }
}

/// `pairs` is the sparse wire form of the slots from position `i` on: one
/// pair per set slot, in slot order, and nothing for unset slots.
pub open spec fn sparse_pairs_match(
    names: Seq<String>,
    criteria: Seq<Option<Criteria>>,
    pairs: Seq<(String, JsonValue)>,
    i: int,
) -> bool
    decreases names.len() - i,
{
    if i < 0 || i >= names.len() {
        pairs.len() == 0
    } else {
        match criteria[i] {
            Some(c) => pairs.len() > 0 && pair_matches_slot(pairs[0], names[i], c)
                && sparse_pairs_match(names, criteria, pairs.drop_first(), i + 1),
            None => sparse_pairs_match(names, criteria, pairs, i + 1),
        }
    }
}

/// The positions of the set slots from position `i` on, in order.
pub open spec fn set_slots_from(criteria: Seq<Option<Criteria>>, i: int) -> Seq<int>
    decreases criteria.len() - i,
{
    if i < 0 || i >= criteria.len() {
        Seq::empty()
    } else if criteria[i] is Some {
        seq![i] + set_slots_from(criteria, i + 1)
    } else {
        set_slots_from(criteria, i + 1)
    }
}

/// A search value: one optional criterion slot per searchable field.
#[derive(Debug)]
pub struct EntitySearch {
    pub names: Vec<String>,
    pub criteria: Vec<Option<Criteria>>,
}

impl EntitySearch {
    /// Slots line up with their field names.
    pub open spec fn wf(&self) -> bool {
        self.names@.len() == self.criteria@.len()
    }

    /// The search value of a schema, with every criterion absent.  A schema
    /// with no searchable fields yields a search value with no slots, which
    /// is still valid: it simply cannot narrow by any attribute.
    pub fn new(schema: &Schema) -> (r: EntitySearch)
        ensures
            r.wf(),
            r.names@ == names_seq(
                schema.fields@,
                searchable_upto(schema.fields@, schema.fields@.len() as int),
            ),
            forall|j: int| 0 <= j < r.criteria@.len() ==> (#[trigger] r.criteria@[j]) is None,
    {
        let part = schema.partition();
        proof {
            vstd::std_specs::vec::axiom_spec_len(&schema.fields);
            lemma_partition_bounds(schema.fields@);
        }
        let mut names: Vec<String> = Vec::new();
        let n = part.searchable.len();
        let mut k: usize = 0;
        let mut criteria: Vec<Option<Criteria>> = Vec::new();
        while k < n
            invariant
                0 <= k <= n == part.searchable@.len(),
                forall|j: int|
                    0 <= j < part.searchable@.len() ==> (#[trigger] part.searchable@[j])
                        < schema.fields@.len(),
                names@ == names_seq(schema.fields@, part.searchable@.take(k as int)),
                criteria@.len() == k,
                forall|j: int| 0 <= j < k ==> (#[trigger] criteria@[j]) is None,
            decreases n - k,
        {
            let i = part.searchable[k];
            names.push(schema.fields[i].name.clone());
            criteria.push(None);
            proof {
                assert(part.searchable@.take(k + 1) =~= part.searchable@.take(k as int).push(
                    part.searchable@[k as int],
                ));
                assert(names@ =~= names_seq(schema.fields@, part.searchable@.take(k + 1)));
            }
            k = k + 1;
        }
        proof {
            assert(part.searchable@.take(n as int) =~= part.searchable@);
        }
        EntitySearch { names, criteria }
    }

    /// Constrains the searchable field named `name` with the given query,
    /// returning the updated search value.  A name outside the searchable
    /// field-set is rejected.
    pub fn and_field(self, name: &str, query: SearchQuery) -> (r: Result<
        EntitySearch,
        SchemaError,
    >)
        requires
            self.wf(),
        ensures
            r is Ok <==> first_index_named(self.names@, name@) is Some,
            r matches Ok(s) ==> {
                &&& s.wf()
                &&& s.names == self.names
                &&& s.criteria@.len() == self.criteria@.len()
                &&& s.criteria@[first_index_named(self.names@, name@)->0] matches Some(c)
                    && criteria_matches(c, query)
                &&& forall|j: int|
                    0 <= j < self.criteria@.len() && j != first_index_named(self.names@, name@)->0
                        ==> #[trigger] s.criteria@[j] == self.criteria@[j]
            },
            r is Err ==> r == Err::<EntitySearch, SchemaError>(SchemaError::UnknownField),
    {
        let mut s = self;
        let n = s.names.len();
        let mut i: usize = 0;
        while i < n
            invariant
                s == self,
                self.wf(),
                0 <= i <= n == s.names@.len(),
                forall|k: int| 0 <= k < i ==> (#[trigger] s.names@[k])@ != name@,
            decreases n - i,
        {
            if str_eq(s.names[i].as_str(), name) {
                proof {
                    lemma_first_index_named(s.names@, name@, i as int);
                }
                let c = query.to_criteria();
                s.criteria.set(i, Some(c));
                return Ok(s);
            }
            i = i + 1;
        }
        proof {
            lemma_first_index_named(s.names@, name@, n as int);
        }
        Err(SchemaError::UnknownField)
    }

    /// Collapses the search value into its wire object.  Unset criteria are
    /// omitted entirely, never sent as null; each set criterion is sent as a
    /// bare value for an exact match and as `{operator: value}` otherwise.
    pub fn to_json(self) -> (r: JsonValue)
        requires
            self.wf(),
        ensures
            r matches JsonValue::Obj(pairs) && sparse_pairs_match(
                self.names@,
                self.criteria@,
                pairs@,
                0,
            ),
    {
        let ghost orig = self;
        let mut s = self;
        let mut pairs: Vec<(String, JsonValue)> = Vec::new();
        proof {
            assert(orig.names@.take(orig.names@.len() as int) =~= orig.names@);
            assert(orig.criteria@.take(orig.criteria@.len() as int) =~= orig.criteria@);
        }
        while s.criteria.len() > 0
            invariant
                orig.wf(),
                s.names@.len() == s.criteria@.len(),
                s.criteria@.len() <= orig.criteria@.len(),
                s.names@ == orig.names@.take(s.names@.len() as int),
                s.criteria@ == orig.criteria@.take(s.criteria@.len() as int),
                sparse_pairs_match(orig.names@, orig.criteria@, pairs@, s.criteria@.len() as int),
            decreases s.criteria@.len(),
        {
            let ghost j = s.criteria@.len() as int;
            let slot = s.criteria.pop().unwrap();
            let name = s.names.pop().unwrap();
            proof {
                assert(orig.criteria@.take(j)[j - 1] == orig.criteria@[j - 1]);
                assert(orig.names@.take(j)[j - 1] == orig.names@[j - 1]);
                assert(s.criteria@ =~= orig.criteria@.take(j - 1));
                assert(s.names@ =~= orig.names@.take(j - 1));
            }
            match slot {
                Some(c) => {
                    let entry = match c {
                        Criteria::Value(v) => v,
                        Criteria::Search(op, v) => JsonValue::Obj(vec![(op, v)]),
                    };
                    let ghost old_pairs = pairs@;
                    pairs.insert(0, (name, entry));
                    proof {
                        assert(pairs@.drop_first() =~= old_pairs);
                        assert(pair_matches_slot(pairs@[0], orig.names@[j - 1], c));
                    }
                },
                None => {},
            }
        }
        JsonValue::Obj(pairs)
    }
}

/// The sparse wire form contains exactly the set criteria: one pair per set
/// slot, in slot order, each correctly tagged, and no pair at all for an
/// unset slot.
pub proof fn lemma_sparse_pairs(
    names: Seq<String>,
    criteria: Seq<Option<Criteria>>,
    pairs: Seq<(String, JsonValue)>,
    i: int,
)
    requires
        names.len() == criteria.len(),
        0 <= i <= names.len(),
        sparse_pairs_match(names, criteria, pairs, i),
    ensures
        pairs.len() == set_slots_from(criteria, i).len(),
        forall|k: int|
            0 <= k < pairs.len() ==> i <= #[trigger] set_slots_from(criteria, i)[k] < names.len(),
        forall|k: int|
            0 <= k < pairs.len() ==> criteria[#[trigger] set_slots_from(criteria, i)[k]] is Some,
        forall|k: int|
            0 <= k < pairs.len() ==> pair_matches_slot(
                pairs[k],
                names[#[trigger] set_slots_from(criteria, i)[k]],
                criteria[set_slots_from(criteria, i)[k]]->0,
            ),
    decreases names.len() - i,
{
    if i < names.len() {
        let slots = set_slots_from(criteria, i);
        let rest = set_slots_from(criteria, i + 1);
        match criteria[i] {
            Some(c) => {
                lemma_sparse_pairs(names, criteria, pairs.drop_first(), i + 1);
                assert(slots == seq![i] + rest);
                assert forall|k: int| 0 <= k < pairs.len() implies {
                    &&& i <= #[trigger] slots[k] < names.len()
                    &&& criteria[slots[k]] is Some
                    &&& pair_matches_slot(pairs[k], names[slots[k]], criteria[slots[k]]->0)
                } by {
                    if k == 0 {
                        assert(slots[0] == i);
                    } else {
                        assert(slots[k] == rest[k - 1]);
                        assert(pairs[k] == pairs.drop_first()[k - 1]);
                        assert(i + 1 <= rest[k - 1] < names.len());
                        assert(pair_matches_slot(
                            pairs.drop_first()[k - 1],
                            names[rest[k - 1]],
                            criteria[rest[k - 1]]->0,
                        ));
                    }
                }
            },
            None => {
                lemma_sparse_pairs(names, criteria, pairs, i + 1);
                assert(slots == rest);
                assert forall|k: int| 0 <= k < pairs.len() implies {
                    &&& i <= #[trigger] slots[k] < names.len()
                    &&& criteria[slots[k]] is Some
                    &&& pair_matches_slot(pairs[k], names[slots[k]], criteria[slots[k]]->0)
                } by {
                    assert(slots[k] == rest[k]);
                    assert(i + 1 <= rest[k] < names.len());
                    assert(pair_matches_slot(pairs[k], names[rest[k]], criteria[rest[k]]->0));
                }
            },
        }
    }
}

} // verus!
