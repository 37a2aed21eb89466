use nextcloud_passwords_client::json::JsonValue;
use nextcloud_passwords_client::record::EntityRecord;
use nextcloud_passwords_client::crud::parse_record_list;
use nextcloud_passwords_client::schema::{FieldType, Mode, Schema, field_def};
use nextcloud_passwords_client::Error;

fn mini_schema() -> Schema {
    // id and created are not versioned; label is versioned.
    let fields = vec![
        field_def("id", FieldType::Identifier, Mode::Absent, Mode::Required, false, false),
        field_def("label", FieldType::Text, Mode::Required, Mode::Required, true, false),
        field_def("created", FieldType::Unsigned, Mode::Absent, Mode::Absent, false, true),
    ];
    Schema::new(fields).unwrap()
}

fn sample_values() -> Vec<JsonValue> {
    vec![
        JsonValue::Str("some-id".to_owned()),
        JsonValue::Str("a label".to_owned()),
        JsonValue::UInt(12345),
    ]
}

#[test]
fn encode_flattens_versioned_into_one_object() {
    let schema = mini_schema();
    let rec = EntityRecord { values: sample_values() };
    let pairs = rec.encode(&schema);
    // Not-versioned fields first (id, created), then the versioned block
    // (label), all at the same structural level.
    assert_eq!(pairs.len(), 3);
    assert_eq!(pairs[0].0, "id");
    assert_eq!(pairs[1].0, "created");
    assert_eq!(pairs[2].0, "label");
    assert_eq!(pairs[2].1, JsonValue::Str("a label".to_owned()));
}

#[test]
fn encode_then_decode_reproduces_every_field() {
    let schema = mini_schema();
    let rec = EntityRecord { values: sample_values() };
    let pairs = rec.encode(&schema);
    let back = EntityRecord::decode(&schema, pairs).unwrap();
    assert_eq!(back.values, sample_values());
}

#[test]
fn decode_is_insensitive_to_key_order() {
    let schema = mini_schema();
    let pairs = vec![
        ("label".to_owned(), JsonValue::Str("l".to_owned())),
        ("created".to_owned(), JsonValue::UInt(7)),
        ("id".to_owned(), JsonValue::Str("i".to_owned())),
    ];
    let rec = EntityRecord::decode(&schema, pairs).unwrap();
    assert_eq!(rec.values[0], JsonValue::Str("i".to_owned()));
    assert_eq!(rec.values[1], JsonValue::Str("l".to_owned()));
    assert_eq!(rec.values[2], JsonValue::UInt(7));
}

#[test]
fn decode_ignores_unknown_keys() {
    let schema = mini_schema();
    let pairs = vec![
        ("id".to_owned(), JsonValue::Str("i".to_owned())),
        ("extra".to_owned(), JsonValue::Null),
        ("label".to_owned(), JsonValue::Str("l".to_owned())),
        ("created".to_owned(), JsonValue::UInt(7)),
    ];
    assert!(EntityRecord::decode(&schema, pairs).is_ok());
}

#[test]
fn decode_rejects_missing_field() {
    let schema = mini_schema();
    let pairs = vec![
        ("id".to_owned(), JsonValue::Str("i".to_owned())),
        ("label".to_owned(), JsonValue::Str("l".to_owned())),
    ];
    assert_eq!(EntityRecord::decode(&schema, pairs), Err(Error::Decode));
}

#[test]
fn decode_rejects_repeated_field() {
    let schema = mini_schema();
    let pairs = vec![
        ("id".to_owned(), JsonValue::Str("i".to_owned())),
        ("label".to_owned(), JsonValue::Str("l1".to_owned())),
        ("label".to_owned(), JsonValue::Str("l2".to_owned())),
        ("created".to_owned(), JsonValue::UInt(7)),
    ];
    assert_eq!(EntityRecord::decode(&schema, pairs), Err(Error::Decode));
}

#[test]
fn split_separates_versioned_from_not_versioned() {
    let schema = mini_schema();
    let rec = EntityRecord { values: sample_values() };
    let (not_versioned, versioned) = rec.split(&schema);
    assert_eq!(
        not_versioned,
        vec![JsonValue::Str("some-id".to_owned()), JsonValue::UInt(12345)]
    );
    assert_eq!(versioned, vec![JsonValue::Str("a label".to_owned())]);
}

#[test]
fn empty_list_parses_to_empty_sequence() {
    // A list of zero records is an empty ordered sequence, never an error.
    let schema = mini_schema();
    let r = parse_record_list(&schema, JsonValue::Arr(vec![])).unwrap();
    assert_eq!(r.len(), 0);
}

#[test]
fn list_parses_records_in_order() {
    let schema = mini_schema();
    let item = |id: &str, n: u64| {
        JsonValue::Obj(vec![
            ("id".to_owned(), JsonValue::Str(id.to_owned())),
            ("label".to_owned(), JsonValue::Str("l".to_owned())),
            ("created".to_owned(), JsonValue::UInt(n)),
        ])
    };
    let r = parse_record_list(&schema, JsonValue::Arr(vec![item("a", 1), item("b", 2)])).unwrap();
    assert_eq!(r.len(), 2);
    assert_eq!(r[0].values[0], JsonValue::Str("a".to_owned()));
    assert_eq!(r[1].values[2], JsonValue::UInt(2));
}

#[test]
fn list_rejects_non_object_element() {
    let schema = mini_schema();
    let r = parse_record_list(&schema, JsonValue::Arr(vec![JsonValue::Null]));
    assert_eq!(r, Err(Error::Decode));
}
