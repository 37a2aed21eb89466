use nextcloud_passwords_client::json::JsonValue;
use nextcloud_passwords_client::session::{
    AuthenticatedApi, LoginDetails, PollAction, ResumeAction, ResumeState, disconnect_outcome,
    keepalive_outcome, login_details_from_json, login_flow_url, open_session_outcome,
    passwords_url_of, poll_request_from_json, poll_step, request_url, resume_decision,
    status_is_success,
};
use nextcloud_passwords_client::Error;

fn sample_state() -> ResumeState {
    ResumeState {
        server_url: "https://cloud.example/".to_owned(),
        password_url: "https://cloud.example/index.php/apps/passwords/api/".to_owned(),
        keepalive: 100,
        session_id: "token-1".to_owned(),
        shutdown_time: 1000,
        login: "alice".to_owned(),
        password: "secret".to_owned(),
    }
}

fn success_body(b: bool) -> JsonValue {
    JsonValue::Obj(vec![("success".to_owned(), JsonValue::Bool(b))])
}

#[test]
fn resume_within_keepalive_keeps_the_token() {
    // elapsed = 50 <= keepalive = 100: one keepalive call, same token.
    let r = resume_decision(sample_state(), 1050).unwrap();
    match r {
        ResumeAction::Keepalive(api) => {
            assert_eq!(api.session_id, "token-1");
            assert_eq!(api.keepalive, 100);
            let (api, sid) = keepalive_outcome(api, success_body(true)).unwrap();
            assert_eq!(sid, "token-1");
            assert_eq!(api.session_id, "token-1");
        },
        other => panic!("expected a keepalive resume, got {:?}", other),
    }
}

#[test]
fn resume_at_exact_keepalive_boundary_keeps_the_token() {
    let r = resume_decision(sample_state(), 1100).unwrap();
    assert!(matches!(r, ResumeAction::Keepalive(_)));
}

#[test]
fn resume_after_keepalive_reauthenticates() {
    // elapsed = 101 > keepalive = 100: full re-authentication with the
    // original credentials; the token comes fresh from the new session.
    let r = resume_decision(sample_state(), 1101).unwrap();
    match r {
        ResumeAction::Reauthenticate(details) => {
            assert_eq!(details.server, "https://cloud.example/");
            assert_eq!(details.login_name, "alice");
            assert_eq!(details.app_password, "secret");
            let api = open_session_outcome(
                details,
                Some("token-2".to_owned()),
                success_body(true),
            )
            .unwrap();
            assert_eq!(api.session_id, "token-2");
            assert_ne!(api.session_id, "token-1");
        },
        other => panic!("expected a re-authentication, got {:?}", other),
    }
}

#[test]
fn resume_with_future_shutdown_time_is_an_error() {
    assert_eq!(resume_decision(sample_state(), 999), Err(Error::TimeError));
}

#[test]
fn keepalive_failure_is_fatal() {
    let r = resume_decision(sample_state(), 1050).unwrap();
    let api = match r {
        ResumeAction::Keepalive(api) => api,
        other => panic!("expected a keepalive resume, got {:?}", other),
    };
    assert_eq!(
        keepalive_outcome(api, success_body(false)),
        Err(Error::ConnectionFailed)
    );
}

#[test]
fn keepalive_malformed_body_is_a_decode_error() {
    let r = resume_decision(sample_state(), 1050).unwrap();
    let api = match r {
        ResumeAction::Keepalive(api) => api,
        other => panic!("expected a keepalive resume, got {:?}", other),
    };
    assert_eq!(keepalive_outcome(api, JsonValue::Null), Err(Error::Decode));
}

fn sample_details() -> LoginDetails {
    LoginDetails {
        server: "https://cloud.example/".to_owned(),
        login_name: "alice".to_owned(),
        app_password: "secret".to_owned(),
    }
}

#[test]
fn open_session_builds_the_authenticated_api() {
    let api = open_session_outcome(
        sample_details(),
        Some("token-9".to_owned()),
        success_body(true),
    )
    .unwrap();
    assert_eq!(api.server_url, "https://cloud.example/");
    assert_eq!(
        api.passwords_url,
        "https://cloud.example/index.php/apps/passwords/api/"
    );
    assert_eq!(api.session_id, "token-9");
    assert_eq!(api.keepalive, 0);
    assert_eq!(api.login, "alice");
}

#[test]
fn open_session_without_header_is_a_connection_failure() {
    assert_eq!(
        open_session_outcome(sample_details(), None, success_body(true)),
        Err(Error::ConnectionFailed)
    );
}

#[test]
fn open_session_reported_failure_is_a_connection_failure() {
    assert_eq!(
        open_session_outcome(sample_details(), Some("t".to_owned()), success_body(false)),
        Err(Error::ConnectionFailed)
    );
}

#[test]
fn open_session_malformed_body_is_a_decode_error() {
    assert_eq!(
        open_session_outcome(sample_details(), Some("t".to_owned()), JsonValue::Arr(vec![])),
        Err(Error::Decode)
    );
}

#[test]
fn session_lifetime_is_recorded() {
    let mut api = open_session_outcome(
        sample_details(),
        Some("t".to_owned()),
        success_body(true),
    )
    .unwrap();
    api.set_session_lifetime(600);
    assert_eq!(api.keepalive, 600);
    assert_eq!(api.session_id, "t");
}

#[test]
fn get_state_round_trips_through_resume() {
    let mut api = open_session_outcome(
        sample_details(),
        Some("t".to_owned()),
        success_body(true),
    )
    .unwrap();
    api.set_session_lifetime(600);
    let state = api.get_state(5000);
    assert_eq!(state.shutdown_time, 5000);
    assert_eq!(state.session_id, "t");
    let r = resume_decision(state, 5300).unwrap();
    match r {
        ResumeAction::Keepalive(resumed) => assert_eq!(resumed, api),
        other => panic!("expected a keepalive resume, got {:?}", other),
    }
}

#[test]
fn disconnect_outcomes() {
    assert_eq!(disconnect_outcome(success_body(true)), Ok(()));
    assert_eq!(
        disconnect_outcome(success_body(false)),
        Err(Error::DisconnectionFailed)
    );
    assert_eq!(disconnect_outcome(JsonValue::Null), Err(Error::Decode));
}

#[test]
fn url_builders_match_the_wire_layout() {
    assert_eq!(
        passwords_url_of("https://cloud.example/"),
        "https://cloud.example/index.php/apps/passwords/api/"
    );
    assert_eq!(
        request_url(
            "https://cloud.example/index.php/apps/passwords/api/",
            "1.0/session/keepalive"
        ),
        "https://cloud.example/index.php/apps/passwords/api//1.0/session/keepalive"
    );
    assert_eq!(
        login_flow_url("https://cloud.example/"),
        "https://cloud.example/index.php/login/v2"
    );
}

#[test]
fn poll_steps_follow_the_status_code() {
    assert_eq!(poll_step(404), PollAction::Retry);
    assert_eq!(poll_step(200), PollAction::Complete);
    assert_eq!(poll_step(500), PollAction::Abort);
    assert!(status_is_success(204));
    assert!(!status_is_success(404));
}

#[test]
fn login_flow_payloads_parse() {
    let poll = JsonValue::Obj(vec![
        (
            "poll".to_owned(),
            JsonValue::Obj(vec![
                ("token".to_owned(), JsonValue::Str("flow-token".to_owned())),
                (
                    "endpoint".to_owned(),
                    JsonValue::Str("https://cloud.example/poll".to_owned()),
                ),
            ]),
        ),
        (
            "login".to_owned(),
            JsonValue::Str("https://cloud.example/grant".to_owned()),
        ),
    ]);
    let p = poll_request_from_json(&poll).unwrap();
    assert_eq!(p.token, "flow-token");
    assert_eq!(p.endpoint, "https://cloud.example/poll");
    assert_eq!(p.login, "https://cloud.example/grant");

    let creds = JsonValue::Obj(vec![
        ("server".to_owned(), JsonValue::Str("https://cloud.example/".to_owned())),
        ("loginName".to_owned(), JsonValue::Str("alice".to_owned())),
        ("appPassword".to_owned(), JsonValue::Str("pw".to_owned())),
    ]);
    let d = login_details_from_json(&creds).unwrap();
    assert_eq!(d.login_name, "alice");
    assert_eq!(login_details_from_json(&JsonValue::Null), Err(Error::Decode));
}

#[test]
fn login_flow_bad_status_maps_to_login_flow_error() {
    // The embedding application maps an aborting poll to this error.
    let status: u16 = 503;
    let action = poll_step(status);
    let err = match action {
        PollAction::Abort => Error::LoginFlowError(status),
        other => panic!("expected an abort, got {:?}", other),
    };
    assert_eq!(err, Error::LoginFlowError(503));
}

#[test]
fn authenticated_api_is_plain_data() {
    let api = AuthenticatedApi {
        server_url: "s".to_owned(),
        passwords_url: "p".to_owned(),
        session_id: "i".to_owned(),
        keepalive: 1,
        login: "l".to_owned(),
        password: "w".to_owned(),
    };
    assert_eq!(api.get_state(9).server_url, "s");
}
