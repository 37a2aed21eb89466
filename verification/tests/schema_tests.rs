use nextcloud_passwords_client::schema::{
    FieldDef, FieldTag, FieldType, Mode, Schema, SchemaError, field_def,
};

fn mini_schema() -> Schema {
    // id: no tags; label: create(required) + update(required) + versioned;
    // created: searchable only.
    let fields = vec![
        field_def("id", FieldType::Identifier, Mode::Absent, Mode::Absent, false, false),
        field_def("label", FieldType::Text, Mode::Required, Mode::Required, true, false),
        field_def("created", FieldType::Unsigned, Mode::Absent, Mode::Absent, false, true),
    ];
    Schema::new(fields).unwrap()
}

#[test]
fn tag_parser_classifies_tokens() {
    let tokens = vec![
        "create(required)".to_owned(),
        "versioned(true)".to_owned(),
        "search".to_owned(),
    ];
    let tag = FieldTag::from_tokens(&tokens).unwrap();
    assert_eq!(tag.create, Mode::Required);
    assert_eq!(tag.update, Mode::Absent);
    assert!(tag.versioned);
    assert!(tag.searchable);
}

#[test]
fn tag_parser_defaults_are_plain() {
    let tag = FieldTag::from_tokens(&vec![]).unwrap();
    assert_eq!(tag.create, Mode::Absent);
    assert_eq!(tag.update, Mode::Absent);
    assert!(!tag.versioned);
    assert!(!tag.searchable);
}

#[test]
fn tag_parser_rejects_unknown_token() {
    let tokens = vec!["create(required)".to_owned(), "indexed".to_owned()];
    assert_eq!(FieldTag::from_tokens(&tokens), Err(SchemaError::UnknownTag));
}

#[test]
fn tag_parser_rejects_repeated_category() {
    let tokens = vec!["create(required)".to_owned(), "create(optional)".to_owned()];
    assert_eq!(FieldTag::from_tokens(&tokens), Err(SchemaError::DuplicateTag));
    let tokens = vec!["versioned(true)".to_owned(), "versioned(false)".to_owned()];
    assert_eq!(FieldTag::from_tokens(&tokens), Err(SchemaError::DuplicateTag));
}

#[test]
fn tag_parser_allows_independent_categories() {
    // A field may be create-required, update-optional, versioned and
    // searchable all at once.
    let tokens = vec![
        "create(required)".to_owned(),
        "update(optional)".to_owned(),
        "versioned(true)".to_owned(),
        "search".to_owned(),
    ];
    let tag = FieldTag::from_tokens(&tokens).unwrap();
    assert_eq!(tag.create, Mode::Required);
    assert_eq!(tag.update, Mode::Optional);
    assert!(tag.versioned);
    assert!(tag.searchable);
}

#[test]
fn schema_rejects_duplicate_field_names() {
    let fields = vec![
        field_def("a", FieldType::Text, Mode::Absent, Mode::Absent, false, false),
        field_def("b", FieldType::Text, Mode::Absent, Mode::Absent, false, false),
        field_def("a", FieldType::Text, Mode::Absent, Mode::Absent, false, false),
    ];
    assert!(matches!(Schema::new(fields), Err(SchemaError::DuplicateField)));
}

#[test]
fn partition_of_mini_schema() {
    let schema = mini_schema();
    let part = schema.partition();
    assert_eq!(part.not_versioned, vec![0usize, 2]);
    assert_eq!(part.versioned, vec![1usize]);
    assert_eq!(part.create_required, vec![1usize]);
    assert_eq!(part.create_optional, Vec::<usize>::new());
    assert_eq!(part.update_required, vec![1usize]);
    assert_eq!(part.update_optional, Vec::<usize>::new());
    assert_eq!(part.searchable, vec![2usize]);
}

#[test]
fn partition_create_sets_are_exclusive() {
    // Every field with a create mode lands in exactly one create set.
    let fields = vec![
        field_def("a", FieldType::Text, Mode::Required, Mode::Optional, false, false),
        field_def("b", FieldType::Text, Mode::Optional, Mode::Required, true, false),
        field_def("c", FieldType::Text, Mode::Absent, Mode::Absent, true, true),
    ];
    let schema = Schema::new(fields).unwrap();
    let part = schema.partition();
    assert_eq!(part.create_required, vec![0usize]);
    assert_eq!(part.create_optional, vec![1usize]);
    assert_eq!(part.update_required, vec![1usize]);
    assert_eq!(part.update_optional, vec![0usize]);
    for i in 0..3usize {
        let in_req = part.create_required.contains(&i);
        let in_opt = part.create_optional.contains(&i);
        assert!(!(in_req && in_opt));
    }
}

#[test]
fn empty_searchable_set_is_valid() {
    let fields = vec![
        field_def("a", FieldType::Text, Mode::Required, Mode::Absent, false, false),
    ];
    let schema = Schema::new(fields).unwrap();
    let part = schema.partition();
    assert!(part.searchable.is_empty());
}

#[test]
fn find_field_first_match() {
    let schema = mini_schema();
    assert_eq!(schema.find_field("label"), Some(1));
    assert_eq!(schema.find_field("missing"), None);
    assert_eq!(schema.len(), 3);
}

#[test]
fn field_def_carries_everything() {
    let f: FieldDef = field_def("x", FieldType::Boolean, Mode::Optional, Mode::Absent, true, false);
    assert_eq!(f.name, "x");
    assert_eq!(f.ty, FieldType::Boolean);
    assert_eq!(f.tag.create, Mode::Optional);
    assert!(f.tag.versioned);
}
