//! Typed client library for a remote password-manager HTTP API.
//!
//! The library is organised around a declarative entity schema: an ordered
//! list of named, tagged fields.  From one schema it derives the five
//! field-sets (not-versioned, versioned, create, update, searchable) and the
//! value-level artifacts built over them: full records with a flattened
//! versioned block, create/update builders, and sparse search criteria.
//! A uniform family of request builders maps every entity operation to one
//! wire call; the session module holds the open/resume/keepalive/disconnect
//! state machine.  All wire shaping happens on a library-owned JSON value
//! tree; transporting bytes over HTTP is left to the embedding application.

use vstd::prelude::*;

pub use color::Color;
pub use search::QueryKind;
pub use search::SearchQuery;

pub mod builder;
pub mod color;
pub mod crud;
pub mod folder;
pub mod json;
pub mod password;
pub mod record;
pub mod schema;
pub mod search;
pub mod service;
pub mod session;
pub mod settings;
pub mod share;
pub mod tag;
pub mod text;
pub mod token;

verus! {

/// Marker restricting which types may act as a setting group; the set is
/// closed to the three groups the settings module declares.
pub trait Sealed {

}

/// Error raised by the client for a failed operation.
#[derive(Debug, PartialEq)]
pub enum Error {
    /// Error in communicating with the API (transport failure, surfaced by
    /// the embedding application).
    ApiError(String),
    /// Could not connect to the passwords API.
    ConnectionFailed,
    /// Could not cleanly disconnect from the passwords API.
    DisconnectionFailed,
    /// Last shutdown time is in the future.
    TimeError,
    /// Setting was not valid in this context.
    InvalidSetting,
    /// A response payload did not match the expected shape.
    Decode,
    /// Endpoint error: the server rejected the request.
    EndpointError(EndpointError),
    /// Error in the login flow: the request returned this status code.
    LoginFlowError(u16),
}

/// The rendering of an error as one line of text.
pub open spec fn error_message(e: Error) -> Seq<char> {
    match e {
        Error::ApiError(detail) => "error in communicating with the API: "@ + detail@,
        Error::ConnectionFailed => "could not connect to the passwords API"@,
        Error::DisconnectionFailed => "could not cleanly disconnect from the passwords API"@,
        Error::TimeError => "last shutdown time is in the future"@,
        Error::InvalidSetting => "setting was not valid in this context"@,
        Error::Decode => "response payload did not match the expected shape"@,
        Error::EndpointError(e) => "endpoint error: "@ + e.message@,
        Error::LoginFlowError(code) => "error in the login flow: request returned "@
            + crate::text::dec_digits(code as int),
    }
}

impl Error {
    /// Renders the error as one line of text.
    pub fn message(&self) -> (r: String)
        ensures
            r@ == error_message(*self),
    {
        match self {
            Error::ApiError(detail) => "error in communicating with the API: ".to_owned().concat(
                detail.as_str(),
            ),
            Error::ConnectionFailed => "could not connect to the passwords API".to_owned(),
            Error::DisconnectionFailed => {
                "could not cleanly disconnect from the passwords API".to_owned()
            },
            Error::TimeError => "last shutdown time is in the future".to_owned(),
            Error::InvalidSetting => "setting was not valid in this context".to_owned(),
            Error::Decode => "response payload did not match the expected shape".to_owned(),
            Error::EndpointError(e) => "endpoint error: ".to_owned().concat(e.message.as_str()),
            Error::LoginFlowError(code) => {
                let digits = crate::text::u64_to_dec(*code as u64);
                "error in the login flow: request returned ".to_owned().concat(digits.as_str())
            },
        }
    }
}

/// Structured application-level error reported by the server.
#[derive(Debug, PartialEq)]
pub struct EndpointError {
    pub status: String,
    pub id: u64,
    pub message: String,
}

/// Either the raw success payload or a structured endpoint error.
#[derive(Debug, PartialEq)]
pub enum EndpointResponse<T> {
    Error(EndpointError),
    Success(T),
}

} // verus!
