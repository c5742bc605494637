//! The relay's error kinds.

use serde_json::Error as JsonError;
use vstd::prelude::*;
use vstd::string::StringExecFns;

verus! {

/// `redis::RedisError`: what the store's client reports. Carried through
/// unopened.
#[verifier::external_type_specification]
#[verifier::external_body]
pub struct ExRedisError(redis::RedisError);

/// `serde_json::Error`: what the JSON writer reports. Carried through
/// unopened.
#[verifier::external_type_specification]
#[verifier::external_body]
pub struct ExJsonError(JsonError);

/// Everything that can go wrong inside the relay.
#[derive(Debug)]
pub enum Error {
    /// The backing queue store refused a connection or a command.
    Redis(redis::RedisError),
    /// The transport failed while sending or receiving a frame.
    WebSocket(String),
    /// A value could not be turned into its wire text.
    Serialization(JsonError),
    /// The identity named at the session endpoint is not acceptable.
    InvalidUserId,
    /// The connection ended; the expected end of every session.
    ConnectionClosed,
}

/// HTTP status that reports an error to a client: a bad identity is the
/// client's fault, everything else the server's.
pub open spec fn status_of(error: Error) -> u16 {
    match error {
        Error::InvalidUserId => 400,
        _ => 500,
    }
}

/// Fixed leading text of each error's message.
pub open spec fn message_prefix(error: Error) -> Seq<char> {
    match error {
        Error::Redis(_) => "Redis error: "@,
        Error::WebSocket(_) => "WebSocket error: "@,
        Error::Serialization(_) => "Serialization error: "@,
        Error::InvalidUserId => "Invalid user ID"@,
        Error::ConnectionClosed => "Connection closed"@,
    }
}

/// `Display` of `redis::RedisError`: the store's own description of the
/// failure. Nothing is claimed about the text.
#[verifier::external_body]
fn redis_error_text(error: &redis::RedisError) -> (text: String) {
    format!("{}", error)
}

/// `Display` of `serde_json::Error`: the encoder's own description of the
/// failure. Nothing is claimed about the text.
#[verifier::external_body]
fn json_error_text(error: &JsonError) -> (text: String) {
    format!("{}", error)
}

impl Error {
    /// The HTTP status under which this error is surfaced.
    pub fn status_code(&self) -> (code: u16)
        ensures
            code == status_of(*self),
    {
        match self {
            Error::InvalidUserId => 400,
            _ => 500,
        }
    }

    /// Human-readable description: a fixed prefix per kind, followed by the
    /// detail the kind carries. For the transport the detail is the stored
    /// text; for the store and the encoder it is their own description.
    pub fn message(&self) -> (text: String)
        ensures
            message_prefix(*self).is_prefix_of(text@),
            match *self {
                Error::WebSocket(detail) => text@ == message_prefix(*self) + detail@,
                Error::InvalidUserId | Error::ConnectionClosed => text@ == message_prefix(*self),
                _ => true,
            },
    {
        match self {
            Error::Redis(e) => {
                let detail = redis_error_text(e);
                String::from_str("Redis error: ").concat(detail.as_str())
            },
            Error::WebSocket(detail) => String::from_str("WebSocket error: ").concat(
                detail.as_str(),
            ),
            Error::Serialization(e) => {
                let detail = json_error_text(e);
                String::from_str("Serialization error: ").concat(detail.as_str())
            },
            Error::InvalidUserId => String::from_str("Invalid user ID"),
            Error::ConnectionClosed => String::from_str("Connection closed"),
        }
    }
}

impl From<redis::RedisError> for Error {
    fn from(error: redis::RedisError) -> (wrapped: Error) {
        Error::Redis(error)
    }
}

impl vstd::std_specs::convert::FromSpecImpl<redis::RedisError> for Error {
    open spec fn obeys_from_spec() -> bool {
        true
    }

    open spec fn from_spec(error: redis::RedisError) -> Error {
        Error::Redis(error)
    }
}

impl From<JsonError> for Error {
    fn from(error: JsonError) -> (wrapped: Error) {
        Error::Serialization(error)
    }
}

impl vstd::std_specs::convert::FromSpecImpl<JsonError> for Error {
    open spec fn obeys_from_spec() -> bool {
        true
    }

    open spec fn from_spec(error: JsonError) -> Error {
        Error::Serialization(error)
    }
}

} // verus!
