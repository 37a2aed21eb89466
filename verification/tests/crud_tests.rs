use nextcloud_passwords_client::builder::EntityBuilder;
use nextcloud_passwords_client::crud::{
    Verb, create_request, delete_request, find_request, list_request, parse_id_only,
    parse_identifier, parse_trashed, restore_request, show_request, update_request,
};
use nextcloud_passwords_client::json::{JsonValue, classify_response};
use nextcloud_passwords_client::schema::{FieldType, Mode, Schema, field_def};
use nextcloud_passwords_client::search::EntitySearch;
use nextcloud_passwords_client::{EndpointResponse, Error};

fn mini_schema() -> Schema {
    let fields = vec![
        field_def("id", FieldType::Identifier, Mode::Absent, Mode::Required, false, false),
        field_def("label", FieldType::Text, Mode::Required, Mode::Required, true, false),
        field_def("created", FieldType::Unsigned, Mode::Absent, Mode::Absent, false, true),
    ];
    Schema::new(fields).unwrap()
}

fn obj_pairs(v: JsonValue) -> Vec<(String, JsonValue)> {
    match v {
        JsonValue::Obj(pairs) => pairs,
        other => panic!("expected an object, got {:?}", other),
    }
}

#[test]
fn list_request_shape() {
    let r = list_request("1.0/password", None);
    assert_eq!(r.verb, Verb::Post);
    assert_eq!(r.path, "1.0/password/list");
    assert_eq!(obj_pairs(r.body).len(), 0);

    let r = list_request("1.0/password", Some("model+revisions".to_owned()));
    let pairs = obj_pairs(r.body);
    assert_eq!(pairs.len(), 1);
    assert_eq!(pairs[0].0, "details");
    assert_eq!(pairs[0].1, JsonValue::Str("model+revisions".to_owned()));
}

#[test]
fn show_request_shape() {
    let r = show_request("1.0/folder", "abc".to_owned(), None);
    assert_eq!(r.verb, Verb::Post);
    assert_eq!(r.path, "1.0/folder/show");
    let pairs = obj_pairs(r.body);
    assert_eq!(pairs.len(), 1);
    assert_eq!(pairs[0].0, "id");
    assert_eq!(pairs[0].1, JsonValue::Str("abc".to_owned()));
}

#[test]
fn find_request_carries_criteria() {
    let schema = mini_schema();
    let criteria = EntitySearch::new(&schema);
    let r = find_request("1.0/tag", criteria, Some("model".to_owned()));
    assert_eq!(r.verb, Verb::Post);
    assert_eq!(r.path, "1.0/tag/find");
    let pairs = obj_pairs(r.body);
    assert_eq!(pairs.len(), 2);
    assert_eq!(pairs[0].0, "criteria");
    assert_eq!(pairs[1].0, "details");
}

#[test]
fn create_and_update_requests_carry_the_builder_object() {
    let schema = mini_schema();
    let b = EntityBuilder::new_create(&schema, vec![JsonValue::Str("l".to_owned())]).unwrap();
    let r = create_request("1.0/password", b);
    assert_eq!(r.verb, Verb::Post);
    assert_eq!(r.path, "1.0/password/create");
    let pairs = obj_pairs(r.body);
    assert_eq!(pairs.len(), 1);
    assert_eq!(pairs[0].0, "label");

    let b = EntityBuilder::new_update(
        &schema,
        vec![JsonValue::Str("i".to_owned()), JsonValue::Str("l".to_owned())],
    )
    .unwrap();
    let r = update_request("1.0/password", b);
    assert_eq!(r.path, "1.0/password/update");
    assert_eq!(obj_pairs(r.body).len(), 2);
}

#[test]
fn delete_request_shape_and_verb() {
    let r = delete_request("1.0/password", "abc".to_owned(), None);
    assert_eq!(r.verb, Verb::Delete);
    assert_eq!(r.path, "1.0/password/delete");
    let pairs = obj_pairs(r.body);
    assert_eq!(pairs.len(), 1);

    let r = delete_request("1.0/password", "abc".to_owned(), Some("rev-7".to_owned()));
    let pairs = obj_pairs(r.body);
    assert_eq!(pairs.len(), 2);
    assert_eq!(pairs[1].0, "revision");
    assert_eq!(pairs[1].1, JsonValue::Str("rev-7".to_owned()));
}

#[test]
fn restore_request_shape_and_verb() {
    let r = restore_request("1.0/folder", "abc".to_owned(), None);
    assert_eq!(r.verb, Verb::Patch);
    assert_eq!(r.path, "1.0/folder/restore");
    // Without a target revision the body omits the revision entirely: the
    // server then treats a record not in the trash as a no-op.
    let pairs = obj_pairs(r.body);
    assert_eq!(pairs.len(), 1);
    assert_eq!(pairs[0].0, "id");
}

#[test]
fn restore_with_revision_yields_a_fresh_revision_id() {
    // The server always creates a new revision on restore; the parsed
    // identifier carries the fresh revision, not the requested one.
    let requested = "rev-old".to_owned();
    let r = restore_request("1.0/password", "abc".to_owned(), Some(requested.clone()));
    let pairs = obj_pairs(r.body);
    assert_eq!(pairs[1].1, JsonValue::Str("rev-old".to_owned()));
    let response = JsonValue::Obj(vec![
        ("id".to_owned(), JsonValue::Str("abc".to_owned())),
        ("revision".to_owned(), JsonValue::Str("rev-new".to_owned())),
    ]);
    let (id, revision) = parse_identifier(&response).unwrap();
    assert_eq!(id, "abc");
    assert_ne!(revision, requested);
}

#[test]
fn stale_revision_delete_is_rejected_by_the_server() {
    // The server answers a delete with a stale expected revision with an
    // endpoint error; the client surfaces it and assumes no state change,
    // never a trashed identifier.
    let response = JsonValue::Obj(vec![
        ("status".to_owned(), JsonValue::Str("error".to_owned())),
        ("id".to_owned(), JsonValue::UInt(400)),
        (
            "message".to_owned(),
            JsonValue::Str("Outdated revision id".to_owned()),
        ),
    ]);
    match classify_response(response) {
        EndpointResponse::Error(e) => {
            assert_eq!(e.status, "error");
            assert_eq!(e.id, 400);
            assert_eq!(e.message, "Outdated revision id");
            let err = Error::EndpointError(e);
            assert!(matches!(err, Error::EndpointError(_)));
        },
        EndpointResponse::Success(_) => panic!("a stale delete must not look like a success"),
    }
}

#[test]
fn success_payload_is_not_mistaken_for_an_error() {
    let response = JsonValue::Obj(vec![
        ("id".to_owned(), JsonValue::Str("abc".to_owned())),
        ("revision".to_owned(), JsonValue::Str("r1".to_owned())),
    ]);
    match classify_response(response) {
        EndpointResponse::Success(v) => {
            let (id, revision) = parse_identifier(&v).unwrap();
            assert_eq!(id, "abc");
            assert_eq!(revision, "r1");
        },
        EndpointResponse::Error(e) => panic!("unexpected endpoint error: {:?}", e),
    }
}

#[test]
fn trashed_identifier_revision_is_optional() {
    let trashed = JsonValue::Obj(vec![
        ("id".to_owned(), JsonValue::Str("abc".to_owned())),
        ("revision".to_owned(), JsonValue::Str("r2".to_owned())),
    ]);
    assert_eq!(
        parse_trashed(&trashed).unwrap(),
        ("abc".to_owned(), Some("r2".to_owned()))
    );

    let deleted = JsonValue::Obj(vec![
        ("id".to_owned(), JsonValue::Str("abc".to_owned())),
        ("revision".to_owned(), JsonValue::Null),
    ]);
    assert_eq!(parse_trashed(&deleted).unwrap(), ("abc".to_owned(), None));

    let absent = JsonValue::Obj(vec![("id".to_owned(), JsonValue::Str("abc".to_owned()))]);
    assert_eq!(parse_trashed(&absent).unwrap(), ("abc".to_owned(), None));
}

#[test]
fn identifier_parsers_reject_bad_shapes() {
    assert_eq!(parse_identifier(&JsonValue::Null), Err(Error::Decode));
    let missing_revision = JsonValue::Obj(vec![("id".to_owned(), JsonValue::Str("a".to_owned()))]);
    assert_eq!(parse_identifier(&missing_revision), Err(Error::Decode));
    assert_eq!(parse_id_only(&JsonValue::Arr(vec![])), Err(Error::Decode));
    let ok = JsonValue::Obj(vec![("id".to_owned(), JsonValue::Str("a".to_owned()))]);
    assert_eq!(parse_id_only(&ok).unwrap(), "a");
}

#[test]
fn error_messages_are_one_line() {
    assert_eq!(
        Error::ConnectionFailed.message(),
        "could not connect to the passwords API"
    );
    assert_eq!(
        Error::LoginFlowError(503).message(),
        "error in the login flow: request returned 503"
    );
    let endpoint = Error::EndpointError(nextcloud_passwords_client::EndpointError {
        status: "error".to_owned(),
        id: 400,
        message: "Outdated revision id".to_owned(),
    });
    assert_eq!(endpoint.message(), "endpoint error: Outdated revision id");
}
