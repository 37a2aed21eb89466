use nextcloud_passwords_client::json::JsonValue;
use nextcloud_passwords_client::schema::{FieldType, Mode, Schema, SchemaError, field_def};
use nextcloud_passwords_client::search::{Criteria, EntitySearch, QueryKind, SearchQuery};

fn mini_schema() -> Schema {
    // The scenario schema: id untagged, label create+update+versioned,
    // created untagged but searchable.
    let fields = vec![
        field_def("id", FieldType::Identifier, Mode::Absent, Mode::Absent, false, false),
        field_def("label", FieldType::Text, Mode::Required, Mode::Required, true, false),
        field_def("created", FieldType::Unsigned, Mode::Absent, Mode::Absent, false, true),
    ];
    Schema::new(fields).unwrap()
}

fn obj_pairs(v: JsonValue) -> Vec<(String, JsonValue)> {
    match v {
        JsonValue::Obj(pairs) => pairs,
        other => panic!("expected an object, got {:?}", other),
    }
}

#[test]
fn to_criteria_exact_is_bare_value() {
    let q = SearchQuery { value: JsonValue::UInt(5), query: QueryKind::Exact };
    assert_eq!(q.to_criteria(), Criteria::Value(JsonValue::UInt(5)));
}

#[test]
fn to_criteria_operators_are_tagged() {
    let cases = vec![
        (QueryKind::Equals, "eq"),
        (QueryKind::NotEqual, "ne"),
        (QueryKind::LessThan, "lt"),
        (QueryKind::GreaterThan, "gt"),
        (QueryKind::LessOrEqual, "le"),
        (QueryKind::GreaterOrEqual, "ge"),
    ];
    for (kind, op) in cases {
        let q = SearchQuery { value: JsonValue::UInt(7), query: kind };
        match q.to_criteria() {
            Criteria::Search(got_op, v) => {
                assert_eq!(got_op, op);
                assert_eq!(v, JsonValue::UInt(7));
            },
            other => panic!("expected a tagged criterion, got {:?}", other),
        }
    }
}

#[test]
fn empty_search_serializes_to_empty_object() {
    let schema = mini_schema();
    let s = EntitySearch::new(&schema);
    assert_eq!(obj_pairs(s.to_json()).len(), 0);
}

#[test]
fn exact_criterion_serializes_bare() {
    let schema = mini_schema();
    let s = EntitySearch::new(&schema)
        .and_field("created", SearchQuery { value: JsonValue::UInt(42), query: QueryKind::Exact })
        .unwrap();
    let pairs = obj_pairs(s.to_json());
    assert_eq!(pairs.len(), 1);
    assert_eq!(pairs[0].0, "created");
    assert_eq!(pairs[0].1, JsonValue::UInt(42));
}

#[test]
fn comparison_criterion_serializes_as_operator_object() {
    let schema = mini_schema();
    let s = EntitySearch::new(&schema)
        .and_field(
            "created",
            SearchQuery { value: JsonValue::UInt(42), query: QueryKind::GreaterThan },
        )
        .unwrap();
    let mut pairs = obj_pairs(s.to_json());
    assert_eq!(pairs.len(), 1);
    let (name, value) = pairs.remove(0);
    assert_eq!(name, "created");
    let inner = obj_pairs(value);
    assert_eq!(inner.len(), 1);
    assert_eq!(inner[0].0, "gt");
    assert_eq!(inner[0].1, JsonValue::UInt(42));
}

#[test]
fn unset_criteria_are_omitted_not_null() {
    let schema = mini_schema();
    let s = EntitySearch::new(&schema);
    // Only `created` is searchable here, and it is unset: no pair at all,
    // in particular no null entry.
    let pairs = obj_pairs(s.to_json());
    assert!(pairs.iter().all(|p| p.1 != JsonValue::Null));
    assert_eq!(pairs.len(), 0);
}

#[test]
fn non_searchable_field_is_rejected() {
    let schema = mini_schema();
    let s = EntitySearch::new(&schema);
    let r = s.and_field(
        "label",
        SearchQuery { value: JsonValue::Str("x".to_owned()), query: QueryKind::Exact },
    );
    assert!(matches!(r, Err(SchemaError::UnknownField)));
}
