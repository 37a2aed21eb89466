use nextcloud_passwords_client::crud::Verb;
use nextcloud_passwords_client::json::JsonValue;
use nextcloud_passwords_client::service::{
    GeneratePassword, MiniatureSize, PasswordStrength, View, avatar_path, favicon_path,
    generate_password_default_request, generate_password_request, generate_response_from_json,
    preview_path,
};
use nextcloud_passwords_client::token::{Response, response_from_json, token_request};
use nextcloud_passwords_client::Error;

fn obj_pairs(v: JsonValue) -> Vec<(String, JsonValue)> {
    match v {
        JsonValue::Obj(pairs) => pairs,
        other => panic!("expected an object, got {:?}", other),
    }
}

#[test]
fn miniature_size_bounds() {
    assert!(MiniatureSize::new(15).is_none());
    assert!(MiniatureSize::new(8).is_none());
    assert!(MiniatureSize::new(264).is_none());
    assert!(MiniatureSize::new(16).is_some());
    assert!(MiniatureSize::new(256).is_some());
    assert_eq!(MiniatureSize::new(24).unwrap().size(), 24);
    assert_eq!(MiniatureSize::default().size(), 32);
}

#[test]
fn password_strength_levels() {
    assert_eq!(PasswordStrength::one().value(), 1);
    assert_eq!(PasswordStrength::two().value(), 2);
    assert_eq!(PasswordStrength::three().value(), 3);
    assert_eq!(PasswordStrength::four().value(), 4);
}

#[test]
fn image_paths() {
    let size = MiniatureSize::new(64).unwrap();
    assert_eq!(avatar_path("user-1", &size), "1.0/service/avatar/user-1/64");
    assert_eq!(
        favicon_path("example.com", &size),
        "1.0/service/favicon/example.com/64"
    );
}

#[test]
fn preview_path_defaults() {
    assert_eq!(
        preview_path("example.com", None, None, None),
        "1.0/service/preview/example.com/desktop/640/360..."
    );
    assert_eq!(
        preview_path(
            "example.com",
            Some(View::Mobile),
            Some("240".to_owned()),
            Some("240...480".to_owned()),
        ),
        "1.0/service/preview/example.com/mobile/240/240...480"
    );
    assert_eq!(View::Desktop.as_str(), "desktop");
    assert_eq!(View::Mobile.as_str(), "mobile");
}

#[test]
fn generate_password_payload_is_sparse() {
    let r = generate_password_request(GeneratePassword::new());
    assert_eq!(r.verb, Verb::Post);
    assert_eq!(r.path, "1.0/service/password");
    assert_eq!(obj_pairs(r.body).len(), 0);

    let settings = GeneratePassword::new()
        .strength(PasswordStrength::three())
        .special(true);
    let r = generate_password_request(settings);
    let pairs = obj_pairs(r.body);
    assert_eq!(pairs.len(), 2);
    assert_eq!(pairs[0].0, "strength");
    assert_eq!(pairs[0].1, JsonValue::UInt(3));
    assert_eq!(pairs[1].0, "special");
    assert_eq!(pairs[1].1, JsonValue::Bool(true));
}

#[test]
fn generate_password_default_request_is_a_get() {
    let r = generate_password_default_request();
    assert_eq!(r.verb, Verb::Get);
    assert_eq!(r.path, "1.0/service/password");
    assert_eq!(r.body, JsonValue::Null);
}

#[test]
fn generate_response_parses() {
    let v = JsonValue::Obj(vec![
        ("password".to_owned(), JsonValue::Str("pw".to_owned())),
        ("words".to_owned(), JsonValue::Str("a b".to_owned())),
        ("strength".to_owned(), JsonValue::UInt(2)),
        ("numbers".to_owned(), JsonValue::Bool(true)),
        ("special".to_owned(), JsonValue::Bool(false)),
    ]);
    let g = generate_response_from_json(&v).unwrap();
    assert_eq!(g.password, "pw");
    assert_eq!(g.strength, 2);
    assert!(g.numbers);
    assert!(!g.special);
    assert_eq!(generate_response_from_json(&JsonValue::Null), Err(Error::Decode));
}

#[test]
fn token_request_path() {
    let r = token_request("email");
    assert_eq!(r.verb, Verb::Get);
    assert_eq!(r.path, "1.0/token/email/request");
    assert_eq!(r.body, JsonValue::Null);
}

#[test]
fn token_response_parses() {
    let v = JsonValue::Obj(vec![
        ("success".to_owned(), JsonValue::Bool(true)),
        ("data".to_owned(), JsonValue::Str("sent".to_owned())),
    ]);
    let t: Response = response_from_json(v).unwrap();
    assert!(t.success);
    assert_eq!(t.data, JsonValue::Str("sent".to_owned()));
    assert_eq!(
        response_from_json(JsonValue::Obj(vec![(
            "success".to_owned(),
            JsonValue::Bool(true)
        )])),
        Err(Error::Decode)
    );
}
