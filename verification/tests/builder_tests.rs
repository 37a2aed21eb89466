use nextcloud_passwords_client::builder::EntityBuilder;
use nextcloud_passwords_client::json::JsonValue;
use nextcloud_passwords_client::schema::{FieldType, Mode, Schema, SchemaError, field_def};

fn mini_schema() -> Schema {
    let fields = vec![
        field_def("id", FieldType::Identifier, Mode::Absent, Mode::Required, false, false),
        field_def("label", FieldType::Text, Mode::Required, Mode::Required, true, false),
        field_def("notes", FieldType::Text, Mode::Optional, Mode::Optional, true, false),
        field_def("created", FieldType::Unsigned, Mode::Absent, Mode::Absent, false, true),
    ];
    Schema::new(fields).unwrap()
}

fn obj_pairs(v: JsonValue) -> Vec<(String, JsonValue)> {
    match v {
        JsonValue::Obj(pairs) => pairs,
        other => panic!("expected an object, got {:?}", other),
    }
}

#[test]
fn create_builder_takes_required_in_schema_order() {
    let schema = mini_schema();
    let b = EntityBuilder::new_create(&schema, vec![JsonValue::Str("my label".to_owned())])
        .unwrap();
    let pairs = obj_pairs(b.to_json());
    assert_eq!(pairs.len(), 1);
    assert_eq!(pairs[0].0, "label");
    assert_eq!(pairs[0].1, JsonValue::Str("my label".to_owned()));
}

#[test]
fn create_builder_omits_fields_outside_create_sets() {
    // `id` is update-required and `created` is searchable, but neither is in
    // a create set: the create payload never mentions them.
    let schema = mini_schema();
    let b = EntityBuilder::new_create(&schema, vec![JsonValue::Str("l".to_owned())]).unwrap();
    let pairs = obj_pairs(b.to_json());
    assert!(pairs.iter().all(|p| p.0 != "id" && p.0 != "created"));
}

#[test]
fn create_builder_rejects_non_optional_name() {
    let schema = mini_schema();
    let b = EntityBuilder::new_create(&schema, vec![JsonValue::Str("l".to_owned())]).unwrap();
    let r = b.set("created", JsonValue::UInt(1));
    assert!(matches!(r, Err(SchemaError::UnknownField)));
}

#[test]
fn create_builder_optional_defaults_absent_and_appears_when_set() {
    let schema = mini_schema();
    let b = EntityBuilder::new_create(&schema, vec![JsonValue::Str("l".to_owned())]).unwrap();
    let b = b.set("notes", JsonValue::Str("hello".to_owned())).unwrap();
    let pairs = obj_pairs(b.to_json());
    assert_eq!(pairs.len(), 2);
    assert_eq!(pairs[0].0, "label");
    assert_eq!(pairs[1].0, "notes");
    assert_eq!(pairs[1].1, JsonValue::Str("hello".to_owned()));
}

#[test]
fn create_builder_checks_arity() {
    let schema = mini_schema();
    let r = EntityBuilder::new_create(&schema, vec![]);
    assert!(matches!(r, Err(SchemaError::ArityMismatch)));
    let r = EntityBuilder::new_create(
        &schema,
        vec![JsonValue::Null, JsonValue::Null],
    );
    assert!(matches!(r, Err(SchemaError::ArityMismatch)));
}

#[test]
fn update_builder_uses_update_sets() {
    // For update, `id` and `label` are required (in schema order) and
    // `notes` is optional.
    let schema = mini_schema();
    let b = EntityBuilder::new_update(
        &schema,
        vec![JsonValue::Str("some-id".to_owned()), JsonValue::Str("l2".to_owned())],
    )
    .unwrap();
    let pairs = obj_pairs(b.to_json());
    assert_eq!(pairs.len(), 2);
    assert_eq!(pairs[0].0, "id");
    assert_eq!(pairs[1].0, "label");
}

#[test]
fn update_builder_omits_fields_outside_update_sets() {
    let schema = mini_schema();
    let b = EntityBuilder::new_update(
        &schema,
        vec![JsonValue::Str("some-id".to_owned()), JsonValue::Str("l2".to_owned())],
    )
    .unwrap();
    let b = b.set("notes", JsonValue::Str("n".to_owned())).unwrap();
    let pairs = obj_pairs(b.to_json());
    assert!(pairs.iter().all(|p| p.0 != "created"));
    assert_eq!(pairs.len(), 3);
}

#[test]
fn setter_chain_is_by_value() {
    let schema = mini_schema();
    let b = EntityBuilder::new_create(&schema, vec![JsonValue::Str("l".to_owned())])
        .unwrap()
        .set("notes", JsonValue::Str("first".to_owned()))
        .unwrap()
        .set("notes", JsonValue::Str("second".to_owned()))
        .unwrap();
    let pairs = obj_pairs(b.to_json());
    assert_eq!(pairs.len(), 2);
    assert_eq!(pairs[1].1, JsonValue::Str("second".to_owned()));
}
