use nextcloud_passwords_client::crud::Verb;
use nextcloud_passwords_client::json::JsonValue;
use nextcloud_passwords_client::{folder, password, share, tag};
use nextcloud_passwords_client::password::{SecurityStatus, StatusCode};
use nextcloud_passwords_client::Error;

fn obj_pairs(v: JsonValue) -> Vec<(String, JsonValue)> {
    match v {
        JsonValue::Obj(pairs) => pairs,
        other => panic!("expected an object, got {:?}", other),
    }
}

#[test]
fn entity_schemas_are_well_formed() {
    assert_eq!(folder::schema().unwrap().len(), 17);
    assert_eq!(password::schema().unwrap().len(), 28);
    assert_eq!(tag::schema().unwrap().len(), 15);
    assert_eq!(share::schema().unwrap().len(), 10);
}

#[test]
fn password_create_required_fields_in_schema_order() {
    let schema = password::schema().unwrap();
    let part = schema.partition();
    let names: Vec<&str> = part
        .create_required
        .iter()
        .map(|&i| schema.fields[i].name.as_str())
        .collect();
    assert_eq!(names, vec!["label", "password", "hash"]);
}

#[test]
fn folder_versioned_and_flat_fields_partition() {
    let schema = folder::schema().unwrap();
    let part = schema.partition();
    assert_eq!(
        part.versioned.len() + part.not_versioned.len(),
        schema.len()
    );
    // `label` is versioned, `id` is not.
    assert!(part.versioned.contains(&1));
    assert!(part.not_versioned.contains(&0));
}

#[test]
fn entity_request_paths() {
    assert_eq!(folder::list_request(None).path, "1.0/folder/list");
    assert_eq!(password::list_request(None).path, "1.0/password/list");
    assert_eq!(tag::list_request(None).path, "1.0/tag/list");
    assert_eq!(share::list_request(None).path, "1.0/share/list");
    assert_eq!(
        folder::show_request("x".to_owned(), None).path,
        "1.0/folder/show"
    );
    assert_eq!(
        password::delete_request("x".to_owned(), None).verb,
        Verb::Delete
    );
    assert_eq!(
        tag::restore_request("x".to_owned(), None).verb,
        Verb::Patch
    );
}

#[test]
fn detail_tokens_follow_declaration_order() {
    let d = password::Details::new().revisions().tags();
    assert_eq!(d.detail_token(), "model+revisions+tags");
    let d = folder::Details::new();
    assert_eq!(d.detail_token(), "model");
    let d = tag::Details::new().passwords();
    assert_eq!(d.detail_token(), "model+passwords");
    let d = share::Details::new().password();
    assert_eq!(d.detail_token(), "model+password");
}

#[test]
fn list_request_carries_the_detail_token() {
    let r = folder::list_request(Some(folder::Details::new().revisions()));
    let pairs = obj_pairs(r.body);
    assert_eq!(pairs.len(), 1);
    assert_eq!(pairs[0].0, "details");
    assert_eq!(pairs[0].1, JsonValue::Str("model+revisions".to_owned()));
}

#[test]
fn parent_and_folder_relations_round_trip() {
    let p = folder::ParentInfo::new("parent-id".to_owned());
    assert!(matches!(
        p.get(),
        folder::ParentInfoKind::Id(id) if id == "parent-id"
    ));
    assert_eq!(p.to_json(), JsonValue::Str("parent-id".to_owned()));
    let p = folder::ParentInfo::from_json(JsonValue::Str("x".to_owned()));
    assert!(matches!(p.get(), folder::ParentInfoKind::Id(_)));
    let embedded = JsonValue::Obj(vec![("id".to_owned(), JsonValue::Str("x".to_owned()))]);
    let p = folder::ParentInfo::from_json(embedded);
    assert!(matches!(p.get(), folder::ParentInfoKind::Data(_)));

    let f = password::FolderInfo::new("f-id".to_owned());
    assert_eq!(f.to_json(), JsonValue::Str("f-id".to_owned()));
}

#[test]
fn identifier_parsers_per_entity() {
    let v = JsonValue::Obj(vec![
        ("id".to_owned(), JsonValue::Str("a".to_owned())),
        ("revision".to_owned(), JsonValue::Str("r".to_owned())),
    ]);
    let fi = folder::identifier_from_json(&v).unwrap();
    assert_eq!((fi.id.as_str(), fi.revision.as_str()), ("a", "r"));
    let pi = password::identifier_from_json(&v).unwrap();
    assert_eq!(pi.id, "a");
    let ti = tag::identifier_from_json(&v).unwrap();
    assert_eq!(ti.revision, "r");
    let tr = password::trashed_from_json(&JsonValue::Obj(vec![(
        "id".to_owned(),
        JsonValue::Str("a".to_owned()),
    )]))
    .unwrap();
    assert_eq!(tr.revision, None);
}

#[test]
fn security_status_codes() {
    assert_eq!(SecurityStatus::Good.code(), 0);
    assert_eq!(SecurityStatus::UserRulesViolated.code(), 1);
    assert_eq!(SecurityStatus::Breached.code(), 2);
    assert_eq!(SecurityStatus::from_code(2), Some(SecurityStatus::Breached));
    assert_eq!(SecurityStatus::from_code(3), None);
}

#[test]
fn status_code_names() {
    assert_eq!(StatusCode::Good.as_str(), "GOOD");
    assert_eq!(StatusCode::from_name("DUPLICATE"), Some(StatusCode::Duplicate));
    assert_eq!(StatusCode::from_name("good"), None);
}

#[test]
fn share_create_payload() {
    let c = share::CreateShare::new("pw-id".to_owned(), "bob".to_owned())
        .share_type("user".to_owned())
        .expires(None)
        .editable(true);
    let pairs = obj_pairs(c.to_json());
    assert_eq!(pairs.len(), 5);
    assert_eq!(pairs[0].0, "password");
    assert_eq!(pairs[1].0, "receiver");
    assert_eq!(pairs[2].0, "type");
    assert_eq!(pairs[3].0, "expires");
    assert_eq!(pairs[3].1, JsonValue::Null);
    assert_eq!(pairs[4].0, "editable");
}

#[test]
fn share_requests_use_their_own_paths() {
    let c = share::CreateShare::new("p".to_owned(), "r".to_owned());
    assert_eq!(share::create_request(c).path, "/api/1.0/share/create");
    assert_eq!(
        share::delete_request("s".to_owned()).path,
        "/api/1.0/share/delete"
    );
}

#[test]
fn partners_request_verb_depends_on_search() {
    let r = share::partners_request(None, None);
    assert_eq!(r.verb, Verb::Get);
    assert_eq!(r.path, "/api/1.0/share/partners");
    assert_eq!(obj_pairs(r.body).len(), 0);

    let r = share::partners_request(Some("ali".to_owned()), Some(10));
    assert_eq!(r.verb, Verb::Post);
    let pairs = obj_pairs(r.body);
    assert_eq!(pairs.len(), 2);
    assert_eq!(pairs[0].0, "search");
    assert_eq!(pairs[1].0, "limit");
    assert_eq!(pairs[1].1, JsonValue::UInt(10));
}

#[test]
fn partners_list_takes_first_entry_and_skips_empty() {
    let v = JsonValue::Arr(vec![
        JsonValue::Obj(vec![(
            "u1".to_owned(),
            JsonValue::Str("Alice".to_owned()),
        )]),
        JsonValue::Obj(vec![]),
        JsonValue::Obj(vec![
            ("u2".to_owned(), JsonValue::Str("Bob".to_owned())),
            ("u3".to_owned(), JsonValue::Str("Carol".to_owned())),
        ]),
    ]);
    let ps = share::partners_from_json(v).unwrap();
    assert_eq!(ps.len(), 2);
    assert_eq!(ps[0].user_id, "u1");
    assert_eq!(ps[0].display_name, "Alice");
    assert_eq!(ps[1].user_id, "u2");
}

#[test]
fn partners_list_rejects_bad_shapes() {
    assert_eq!(
        share::partners_from_json(JsonValue::Null),
        Err(Error::Decode)
    );
    let v = JsonValue::Arr(vec![JsonValue::Obj(vec![(
        "u1".to_owned(),
        JsonValue::UInt(1),
    )])]);
    assert_eq!(share::partners_from_json(v), Err(Error::Decode));
}

#[test]
fn person_parses() {
    let v = JsonValue::Obj(vec![
        ("id".to_owned(), JsonValue::Str("u1".to_owned())),
        ("name".to_owned(), JsonValue::Str("Alice".to_owned())),
    ]);
    let p = share::person_from_json(&v).unwrap();
    assert_eq!(p.id, "u1");
    assert_eq!(p.name, "Alice");
}
