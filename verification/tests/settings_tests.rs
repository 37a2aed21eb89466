use nextcloud_passwords_client::json::JsonValue;
use nextcloud_passwords_client::settings::{
    ClientSettings, ParseError, ServerSettings, Setting, SettingValue, SettingVariant, Settings,
    UserSettings, server_setting_names, session_lifetime_from_response, settings_get_request,
    settings_names, settings_reset_request, settings_set_request, single_setting_from_response,
    user_setting_names, user_value_from_str, variant_value_from_json,
};
use nextcloud_passwords_client::crud::Verb;
use nextcloud_passwords_client::Error;

fn obj_pairs(v: JsonValue) -> Vec<(String, JsonValue)> {
    match v {
        JsonValue::Obj(pairs) => pairs,
        other => panic!("expected an object, got {:?}", other),
    }
}

#[test]
fn setting_names_match_the_wire() {
    assert_eq!(
        UserSettings::SessionLifetime.setting_name(),
        "user.session.lifetime"
    );
    assert_eq!(ServerSettings::BaseUrl.setting_name(), "server.baseUrl");
    assert_eq!(
        ClientSettings { name: "theme".to_owned() }.setting_name(),
        "client.theme"
    );
    // Through the trait as well.
    assert_eq!(
        Setting::name(&UserSettings::PasswordStrength),
        "user.password.generator.strength"
    );
}

#[test]
fn setting_names_round_trip() {
    assert_eq!(
        UserSettings::from_name("user.mail.security"),
        Some(UserSettings::NotifySecurityByMail)
    );
    assert_eq!(UserSettings::from_name("user.mail.unknown"), None);
    assert_eq!(
        ServerSettings::from_name("server.theme.logo"),
        Some(ServerSettings::Logo)
    );
    assert_eq!(
        SettingVariant::from_name("user.session.lifetime"),
        Some(SettingVariant::SessionLifetime)
    );
    assert_eq!(SettingVariant::from_name("client.anything"), None);
}

#[test]
fn variants_carry_their_group() {
    assert_eq!(
        UserSettings::SessionLifetime.to_variant(),
        SettingVariant::SessionLifetime
    );
    assert_eq!(
        ServerSettings::Version.to_variant(),
        SettingVariant::Version
    );
    let v = SettingValue::SessionLifetime(600);
    assert_eq!(v.kind(), SettingVariant::SessionLifetime);
}

#[test]
fn name_tables_cover_every_setting() {
    assert_eq!(user_setting_names().len(), 13);
    assert_eq!(server_setting_names().len(), 15);
    assert_eq!(settings_names().len(), 28);
    assert_eq!(user_setting_names()[0], "user.password.generator.strength");
    assert_eq!(server_setting_names()[0], "server.version");
}

#[test]
fn typed_values_parse_from_json() {
    assert_eq!(
        variant_value_from_json(SettingVariant::SessionLifetime, &JsonValue::UInt(600)),
        Ok(SettingValue::SessionLifetime(600))
    );
    assert_eq!(
        variant_value_from_json(SettingVariant::PasswordStrength, &JsonValue::Int(3)),
        Ok(SettingValue::PasswordStrength(3))
    );
    assert_eq!(
        variant_value_from_json(SettingVariant::Sharing, &JsonValue::Bool(true)),
        Ok(SettingValue::Sharing(true))
    );
    assert_eq!(
        variant_value_from_json(SettingVariant::Version, &JsonValue::Str("24".to_owned())),
        Ok(SettingValue::Version("24".to_owned()))
    );
    let list = JsonValue::Arr(vec![JsonValue::Str("user".to_owned())]);
    assert_eq!(
        variant_value_from_json(SettingVariant::SharingTypes, &list),
        Ok(SettingValue::SharingTypes(vec!["user".to_owned()]))
    );
}

#[test]
fn client_group_is_invalid_for_typed_reads() {
    assert_eq!(
        variant_value_from_json(SettingVariant::Client, &JsonValue::Null),
        Err(Error::InvalidSetting)
    );
}

#[test]
fn ill_shaped_values_are_decode_errors() {
    assert_eq!(
        variant_value_from_json(SettingVariant::SessionLifetime, &JsonValue::Bool(true)),
        Err(Error::Decode)
    );
    assert_eq!(
        variant_value_from_json(SettingVariant::PasswordStrength, &JsonValue::Int(300)),
        Err(Error::Decode)
    );
}

#[test]
fn string_values_parse_per_setting_type() {
    assert_eq!(
        user_value_from_str(UserSettings::PasswordStrength, "3"),
        Ok(SettingValue::PasswordStrength(3))
    );
    assert_eq!(
        user_value_from_str(UserSettings::PasswordStrength, "300"),
        Err(ParseError::Number)
    );
    assert_eq!(
        user_value_from_str(UserSettings::CheckForDuplicates, "true"),
        Ok(SettingValue::CheckForDuplicates(true))
    );
    assert_eq!(
        user_value_from_str(UserSettings::CheckForDuplicates, "yes"),
        Err(ParseError::Boolean)
    );
    assert_eq!(
        user_value_from_str(UserSettings::SessionLifetime, "600"),
        Ok(SettingValue::SessionLifetime(600))
    );
    assert_eq!(
        user_value_from_str(UserSettings::CheckForOldPasswords, "-1"),
        Ok(SettingValue::CheckForOldPasswords(-1))
    );
}

#[test]
fn settings_requests_carry_the_names() {
    let r = settings_get_request(vec!["user.session.lifetime".to_owned()]);
    assert_eq!(r.verb, Verb::Post);
    assert_eq!(r.path, "1.0/settings/get");
    match r.body {
        JsonValue::Arr(items) => {
            assert_eq!(items, vec![JsonValue::Str("user.session.lifetime".to_owned())]);
        },
        other => panic!("expected an array body, got {:?}", other),
    }
    let r = settings_reset_request(vec!["user.mail.shares".to_owned()]);
    assert_eq!(r.path, "1.0/settings/reset");
}

#[test]
fn settings_write_uses_wire_names_and_canonical_values() {
    let settings = Settings::new()
        .set_value(SettingValue::PasswordStrength(2))
        .set_value(SettingValue::Client {
            name: "theme".to_owned(),
            value: "dark".to_owned(),
        });
    let r = settings_set_request(settings);
    assert_eq!(r.path, "1.0/settings/set");
    let pairs = obj_pairs(r.body);
    assert_eq!(pairs.len(), 2);
    assert_eq!(pairs[0].0, "user.password.generator.strength");
    assert_eq!(pairs[0].1, JsonValue::Int(2));
    assert_eq!(pairs[1].0, "client.theme");
    assert_eq!(pairs[1].1, JsonValue::Str("dark".to_owned()));
}

#[test]
fn single_setting_reads_from_a_get_response() {
    let response = JsonValue::Obj(vec![(
        "user.session.lifetime".to_owned(),
        JsonValue::UInt(600),
    )]);
    assert_eq!(
        single_setting_from_response(SettingVariant::SessionLifetime, &response),
        Ok(SettingValue::SessionLifetime(600))
    );
    assert_eq!(
        single_setting_from_response(SettingVariant::Client, &response),
        Err(Error::InvalidSetting)
    );
    assert_eq!(
        single_setting_from_response(SettingVariant::Version, &response),
        Err(Error::Decode)
    );
    assert_eq!(session_lifetime_from_response(&response), Ok(600));
    assert_eq!(
        session_lifetime_from_response(&JsonValue::Null),
        Err(Error::Decode)
    );
}
