//! The session lifecycle: open, resume, keepalive, expire, disconnect.
//!
//! The state machine has three states: unauthenticated, authenticated and
//! expired.  Opening a session authenticates with credentials and obtains a
//! session token and the keepalive interval; resuming decides, from the time
//! elapsed since the last refresh, between one lightweight keepalive call
//! that preserves the existing token and a full re-authentication that
//! yields a new one.  This module holds every decision and every payload
//! shape; performing the wire calls is the embedding application's part.

use vstd::prelude::*;
use crate::Error;
use crate::json::{JsonValue, lookup_first};

verus! {

/// How to first connect to a server instance.
#[derive(Debug, PartialEq)]
pub struct LoginDetails {
    pub server: String,
    pub login_name: String,
    pub app_password: String,
}

/// The state needed to re-connect to a server instance without prompting
/// the user again: where, as whom, under which token, and how fresh the
/// session was at shutdown.
#[derive(Debug, PartialEq)]
pub struct ResumeState {
    pub server_url: String,
    pub password_url: String,
    pub keepalive: u64,
    pub session_id: String,
    pub shutdown_time: u64,
    pub login: String,
    pub password: String,
}

/// An authenticated connection: the server, the credentials, the session
/// token and the keepalive interval in seconds.  The token is immutable
/// between refreshes; it is only ever replaced wholesale, never mutated.
#[derive(Debug, PartialEq)]
pub struct AuthenticatedApi {
    pub server_url: String,
    pub passwords_url: String,
    pub session_id: String,
    pub keepalive: u64,
    pub login: String,
    pub password: String,
}

/// The API root under a server URL.  The server URL is expected to carry
/// its trailing slash, as a normalized URL renders it.
pub fn passwords_url_of(server: &str) -> (r: String)
    ensures
        r@ == server@ + "index.php/apps/passwords/api/"@,
{
    server.to_owned().concat("index.php/apps/passwords/api/")
}

/// The URL of one endpoint under an API root.
pub fn request_url(passwords_url: &str, endpoint: &str) -> (r: String)
    ensures
        r@ == passwords_url@ + "/"@ + endpoint@,
{
    passwords_url.to_owned().concat("/").concat(endpoint)
}

/// What a resume does: re-authenticate from scratch, or refresh the kept
/// session with one keepalive call.
#[derive(Debug, PartialEq)]
pub enum ResumeAction {
    /// The session is too old: perform a full re-authentication with the
    /// originally supplied credentials, yielding a new token.
    Reauthenticate(LoginDetails),
    /// The session is still fresh: issue exactly one keepalive call on this
    /// connection, which keeps the existing token.
    Keepalive(AuthenticatedApi),
}

/// The `success` flag of a status payload, when the payload carries one.
pub open spec fn success_flag(v: JsonValue) -> Option<bool> {
    if v is Obj && (lookup_first(v->Obj_0@, "success"@) matches Some(b) && b is Bool) {
        Some(lookup_first(v->Obj_0@, "success"@)->0->Bool_0)
    } else {
        None
    }
}

fn read_success_flag(v: &JsonValue) -> (r: Option<bool>)
    ensures
        r == success_flag(*v),
{
    match v {
        JsonValue::Obj(pairs) => match crate::json::obj_get(pairs, "success") {
            Some(JsonValue::Bool(b)) => Some(*b),
            _ => None,
        },
        _ => None,
    }
}

/// Decides how to resume a stored session at time `now` (seconds).
///
/// When the elapsed time since shutdown is within the keepalive interval,
/// the resume keeps the stored session: the returned connection carries the
/// existing token unchanged, and owes the server exactly one keepalive
/// call.  When the elapsed time exceeds the interval, the session has
/// expired: the resume yields the original credentials for a full
/// re-authentication, which obtains a new token.  A shutdown time in the
/// future is an error.
pub fn resume_decision(state: ResumeState, now: u64) -> (r: Result<ResumeAction, Error>)
    ensures
        r is Err <==> now < state.shutdown_time,
        r is Err ==> r == Err::<ResumeAction, Error>(Error::TimeError),
        (now >= state.shutdown_time && now - state.shutdown_time > state.keepalive) ==> (
        r matches Ok(ResumeAction::Reauthenticate(d)) && d.server == state.server_url
            && d.login_name == state.login && d.app_password == state.password),
        (now >= state.shutdown_time && now - state.shutdown_time <= state.keepalive) ==> (
        r matches Ok(ResumeAction::Keepalive(api)) && api.session_id == state.session_id
            && api.server_url == state.server_url && api.passwords_url == state.password_url
            && api.keepalive == state.keepalive && api.login == state.login && api.password
            == state.password),
{
    if now < state.shutdown_time {
        return Err(Error::TimeError);
    }
    let elapsed = now - state.shutdown_time;
    if elapsed > state.keepalive {
        Ok(ResumeAction::Reauthenticate(LoginDetails {
            server: state.server_url,
            login_name: state.login,
            app_password: state.password,
        }))
    } else {
        Ok(ResumeAction::Keepalive(AuthenticatedApi {
            server_url: state.server_url,
            passwords_url: state.password_url,
            session_id: state.session_id,
            keepalive: state.keepalive,
            login: state.login,
            password: state.password,
        }))
    }
}

/// Applies the result of the one keepalive call of a fresh resume.  A
/// reported failure is fatal and is not retried; a success hands the
/// connection back with the session token it already had.
pub fn keepalive_outcome(api: AuthenticatedApi, body: JsonValue) -> (r: Result<
    (AuthenticatedApi, String),
    Error,
>)
    ensures
        success_flag(body) is None ==> r == Err::<(AuthenticatedApi, String), Error>(Error::Decode),
        success_flag(body) == Some(false) ==> r == Err::<(AuthenticatedApi, String), Error>(
            Error::ConnectionFailed,
        ),
        success_flag(body) == Some(true) ==> (r matches Ok(p) && p.0 == api && p.1@
            == api.session_id@),
{
    match read_success_flag(&body) {
        None => Err(Error::Decode),
        Some(false) => Err(Error::ConnectionFailed),
        Some(true) => {
            let session_id = api.session_id.clone();
            Ok((api, session_id))
        },
    }
}

/// Applies the result of the session-open call.  A missing session header
/// or a reported failure leaves the client unauthenticated and surfaces a
/// connection failure; a success yields an authenticated connection under
/// the token the server assigned, with the keepalive interval still to be
/// queried.
pub fn open_session_outcome(
    details: LoginDetails,
    session_header: Option<String>,
    body: JsonValue,
) -> (r: Result<AuthenticatedApi, Error>)
    ensures
        session_header is None ==> r == Err::<AuthenticatedApi, Error>(Error::ConnectionFailed),
        session_header is Some && success_flag(body) is None ==> r == Err::<
            AuthenticatedApi,
            Error,
        >(Error::Decode),
        session_header is Some && success_flag(body) == Some(false) ==> r == Err::<
            AuthenticatedApi,
            Error,
        >(Error::ConnectionFailed),
        session_header is Some && success_flag(body) == Some(true) ==> (r matches Ok(api)
            && api.server_url == details.server && api.passwords_url@ == details.server@
            + "index.php/apps/passwords/api/"@ && api.session_id == session_header->0
            && api.keepalive == 0 && api.login == details.login_name && api.password
            == details.app_password),
{
    let session_id = match session_header {
        Some(s) => s,
        None => {
            return Err(Error::ConnectionFailed);
        },
    };
    match read_success_flag(&body) {
        None => Err(Error::Decode),
        Some(false) => Err(Error::ConnectionFailed),
        Some(true) => {
            let passwords_url = passwords_url_of(details.server.as_str());
            Ok(AuthenticatedApi {
                server_url: details.server,
                passwords_url,
                session_id,
                keepalive: 0,
                login: details.login_name,
                password: details.app_password,
            })
        },
    }
}

/// Applies the result of the session-close call.  A rejected close is
/// reported, but the local session state is discarded by the caller either
/// way.
pub fn disconnect_outcome(body: JsonValue) -> (r: Result<(), Error>)
    ensures
        success_flag(body) is None ==> r == Err::<(), Error>(Error::Decode),
        success_flag(body) == Some(false) ==> r == Err::<(), Error>(Error::DisconnectionFailed),
        success_flag(body) == Some(true) ==> r is Ok,
{
    match read_success_flag(&body) {
        None => Err(Error::Decode),
        Some(false) => Err(Error::DisconnectionFailed),
        Some(true) => Ok(()),
    }
}

impl AuthenticatedApi {
    /// Records the keepalive interval the server reported for this session.
    pub fn set_session_lifetime(&mut self, lifetime: u64)
        ensures
            final(self).keepalive == lifetime,
            final(self).server_url == old(self).server_url,
            final(self).passwords_url == old(self).passwords_url,
            final(self).session_id == old(self).session_id,
            final(self).login == old(self).login,
            final(self).password == old(self).password,
    {
        self.keepalive = lifetime;
    }

    /// The state to persist at time `now` (seconds) so that this session can
    /// be resumed later without prompting the user again.
    pub fn get_state(&self, now: u64) -> (r: ResumeState)
        ensures
            r.server_url@ == self.server_url@,
            r.password_url@ == self.passwords_url@,
            r.keepalive == self.keepalive,
            r.session_id@ == self.session_id@,
            r.login@ == self.login@,
            r.password@ == self.password@,
            r.shutdown_time == now,
    {
        ResumeState {
            server_url: self.server_url.clone(),
            password_url: self.passwords_url.clone(),
            keepalive: self.keepalive,
            session_id: self.session_id.clone(),
            shutdown_time: now,
            login: self.login.clone(),
            password: self.password.clone(),
        }
    }
}

/// The URL that starts the interactive login flow on a server.
pub fn login_flow_url(server: &str) -> (r: String)
    ensures
        r@ == server@ + "index.php/login/v2"@,
{
    server.to_owned().concat("index.php/login/v2")
}

/// An HTTP status code reports success.
pub fn status_is_success(status: u16) -> (r: bool)
    ensures
        r == (200 <= status < 300),
{
    200 <= status && status < 300
}

/// What one poll of the login flow decides.
#[derive(Clone, Copy, Debug, PartialEq, Eq, Structural)]
pub enum PollAction {
    /// The user has not granted access yet: poll again after a short wait.
    Retry,
    /// The poll returned the granted credentials: read them from the body.
    Complete,
    /// Any other status aborts the flow with a login-flow error.
    Abort,
}

/// Classifies one poll status of the login flow: not-found means not
/// granted yet, success carries the credentials, anything else aborts.
pub fn poll_step(status: u16) -> (r: PollAction)
    ensures
        status == 404 ==> r == PollAction::Retry,
        status == 200 ==> r == PollAction::Complete,
        (status != 404 && status != 200) ==> r == PollAction::Abort,
{
    if status == 404 {
        PollAction::Retry
    } else if status == 200 {
        PollAction::Complete
    } else {
        PollAction::Abort
    }
}

/// The poll coordinates of a started login flow: the one-time token, the
/// endpoint to poll, and the page the user grants access on.
#[derive(Debug, PartialEq)]
pub struct LoginFlowPoll {
    pub token: String,
    pub endpoint: String,
    pub login: String,
}

/// The payload shape that starts a login flow: a `poll` object carrying a
/// string `token` and a string `endpoint`, beside a string `login` URL.
pub open spec fn is_poll_request_shape(v: JsonValue) -> bool {
    &&& v is Obj
    &&& lookup_first(v->Obj_0@, "poll"@) matches Some(p) && p is Obj
    &&& lookup_first(lookup_first(v->Obj_0@, "poll"@)->0->Obj_0@, "token"@) matches Some(t) && t
        is Str
    &&& lookup_first(lookup_first(v->Obj_0@, "poll"@)->0->Obj_0@, "endpoint"@) matches Some(e) && e
        is Str
    &&& lookup_first(v->Obj_0@, "login"@) matches Some(l) && l is Str
}

/// Reads the poll coordinates from the response that starts a login flow.
pub fn poll_request_from_json(v: &JsonValue) -> (r: Result<LoginFlowPoll, Error>)
    ensures
        r is Ok <==> is_poll_request_shape(*v),
        r matches Ok(p) ==> {
            let poll_pairs = lookup_first(v->Obj_0@, "poll"@)->0->Obj_0@;
            &&& lookup_first(poll_pairs, "token"@) == Some(JsonValue::Str(p.token))
            &&& lookup_first(poll_pairs, "endpoint"@) == Some(JsonValue::Str(p.endpoint))
            &&& lookup_first(v->Obj_0@, "login"@) == Some(JsonValue::Str(p.login))
        },
        r is Err ==> r == Err::<LoginFlowPoll, Error>(Error::Decode),
{
    match v {
        JsonValue::Obj(pairs) => {
            let poll_pairs = match crate::json::obj_get(pairs, "poll") {
                Some(JsonValue::Obj(pp)) => pp,
                _ => {
                    return Err(Error::Decode);
                },
            };
            let token = match crate::json::obj_get(poll_pairs, "token") {
                Some(JsonValue::Str(s)) => s.clone(),
                _ => {
                    return Err(Error::Decode);
                },
            };
            let endpoint = match crate::json::obj_get(poll_pairs, "endpoint") {
                Some(JsonValue::Str(s)) => s.clone(),
                _ => {
                    return Err(Error::Decode);
                },
            };
            let login = match crate::json::obj_get(pairs, "login") {
                Some(JsonValue::Str(s)) => s.clone(),
                _ => {
                    return Err(Error::Decode);
                },
            };
            Ok(LoginFlowPoll { token, endpoint, login })
        },
        _ => Err(Error::Decode),
    }
}

/// The payload shape of granted login-flow credentials: a string `server`,
/// a string `loginName` and a string `appPassword`.
pub open spec fn is_login_details_shape(v: JsonValue) -> bool {
    &&& v is Obj
    &&& lookup_first(v->Obj_0@, "server"@) matches Some(s) && s is Str
    &&& lookup_first(v->Obj_0@, "loginName"@) matches Some(l) && l is Str
    &&& lookup_first(v->Obj_0@, "appPassword"@) matches Some(p) && p is Str
}

/// Reads granted credentials from the final login-flow response.
pub fn login_details_from_json(v: &JsonValue) -> (r: Result<LoginDetails, Error>)
    ensures
        r is Ok <==> is_login_details_shape(*v),
        r matches Ok(d) ==> {
            &&& lookup_first(v->Obj_0@, "server"@) == Some(JsonValue::Str(d.server))
            &&& lookup_first(v->Obj_0@, "loginName"@) == Some(JsonValue::Str(d.login_name))
            &&& lookup_first(v->Obj_0@, "appPassword"@) == Some(JsonValue::Str(d.app_password))
        },
        r is Err ==> r == Err::<LoginDetails, Error>(Error::Decode),
{
    match v {
        JsonValue::Obj(pairs) => {
            let server = match crate::json::obj_get(pairs, "server") {
                Some(JsonValue::Str(s)) => s.clone(),
                _ => {
                    return Err(Error::Decode);
                },
            };
            let login_name = match crate::json::obj_get(pairs, "loginName") {
                Some(JsonValue::Str(s)) => s.clone(),
                _ => {
                    return Err(Error::Decode);
                },
            };
            let app_password = match crate::json::obj_get(pairs, "appPassword") {
                Some(JsonValue::Str(s)) => s.clone(),
                _ => {
                    return Err(Error::Decode);
                },
            };
            Ok(LoginDetails { server, login_name, app_password })
        },
        _ => Err(Error::Decode),
    }
}

} // verus!
