//! Error taxonomy shared by every layer of the gateway.

use vstd::prelude::*;
use vstd::string::StringExecFns;

verus! {

/// Stable, client-facing error codes.
#[derive(Debug, Clone, Copy, PartialEq, Eq, Structural)]
pub enum ClientCode {
    /// Invalid input or malformed message.
    BadRequest,
    /// Authentication failed.
    AuthFailed,
    /// The caller exceeded a rate limit.
    RateLimited,
    /// The payload exceeds the permitted size.
    PayloadTooLarge,
    /// Denied by tenant policy.
    NotAllowed,
    /// The protocol version is not supported.
    UnsupportedVersion,
    /// Internal failure.
    Internal,
    /// The user already holds the maximum number of sessions.
    TooManySessions,
    /// The connection was idle for too long.
    Timeout,
}

impl ClientCode {
    /// The wire spelling of each code, as it appears in JSON responses.
    pub open spec fn wire_name(self) -> Seq<char> {
        match self {
            ClientCode::BadRequest => "BAD_REQUEST"@,
            ClientCode::AuthFailed => "AUTH_FAILED"@,
            ClientCode::RateLimited => "RATE_LIMITED"@,
            ClientCode::PayloadTooLarge => "PAYLOAD_TOO_LARGE"@,
            ClientCode::NotAllowed => "NOT_ALLOWED"@,
            ClientCode::UnsupportedVersion => "UNSUPPORTED_VERSION"@,
            ClientCode::Internal => "INTERNAL"@,
            ClientCode::TooManySessions => "TOO_MANY_SESSIONS"@,
            ClientCode::Timeout => "TIMEOUT"@,
        }
    }

    /// String representation used in JSON responses.
    pub fn as_str(self) -> (s: &'static str)
        ensures
            s@ == self.wire_name(),
    {
        match self {
            ClientCode::BadRequest => "BAD_REQUEST",
            ClientCode::AuthFailed => "AUTH_FAILED",
            ClientCode::RateLimited => "RATE_LIMITED",
            ClientCode::PayloadTooLarge => "PAYLOAD_TOO_LARGE",
            ClientCode::NotAllowed => "NOT_ALLOWED",
            ClientCode::UnsupportedVersion => "UNSUPPORTED_VERSION",
            ClientCode::Internal => "INTERNAL",
            ClientCode::TooManySessions => "TOO_MANY_SESSIONS",
            ClientCode::Timeout => "TIMEOUT",
        }
    }
}

/// Unified error type of the gateway core.
#[derive(Debug)]
pub enum WsPrismError {
    /// Malformed input, with a human-readable reason.
    BadRequest(String),
    /// The ticket did not resolve to a user.
    AuthFailed,
    /// A rate limit was exceeded.
    RateLimited,
    /// The payload exceeds the permitted size.
    PayloadTooLarge,
    /// Denied by policy, with a reason.
    NotAllowed(String),
    /// The protocol or schema version is not supported.
    UnsupportedVersion,
    /// Internal failure, with a reason.
    Internal(String),
    /// A tenant, room or user limit would be exceeded, with a reason.
    ResourceExhausted(String),
    /// The user already holds the maximum number of sessions.
    TooManySessions,
    /// The connection was idle for too long.
    Timeout,
}

impl WsPrismError {
    /// The client code that each error maps to.
    pub open spec fn code(self) -> ClientCode {
        match self {
            WsPrismError::BadRequest(_) => ClientCode::BadRequest,
            WsPrismError::AuthFailed => ClientCode::AuthFailed,
            WsPrismError::RateLimited => ClientCode::RateLimited,
            WsPrismError::PayloadTooLarge => ClientCode::PayloadTooLarge,
            WsPrismError::NotAllowed(_) => ClientCode::NotAllowed,
            WsPrismError::UnsupportedVersion => ClientCode::UnsupportedVersion,
            WsPrismError::Internal(_) => ClientCode::Internal,
            WsPrismError::ResourceExhausted(_) => ClientCode::NotAllowed,
            WsPrismError::TooManySessions => ClientCode::TooManySessions,
            WsPrismError::Timeout => ClientCode::Timeout,
        }
    }

    /// Whether this is a `BadRequest` that carries exactly `msg`.
    pub open spec fn is_bad_request(self, msg: Seq<char>) -> bool {
        match self {
            WsPrismError::BadRequest(m) => m@ == msg,
            _ => false,
        }
    }

    /// Whether this is a `ResourceExhausted` that carries exactly `msg`.
    pub open spec fn is_resource_exhausted(self, msg: Seq<char>) -> bool {
        match self {
            WsPrismError::ResourceExhausted(m) => m@ == msg,
            _ => false,
        }
    }

    /// The text that describes the error.
    pub open spec fn description(self) -> Seq<char> {
        match self {
            WsPrismError::BadRequest(m) => "bad request: "@ + m@,
            WsPrismError::AuthFailed => "auth failed"@,
            WsPrismError::RateLimited => "rate limited"@,
            WsPrismError::PayloadTooLarge => "payload too large"@,
            WsPrismError::NotAllowed(m) => "not allowed: "@ + m@,
            WsPrismError::UnsupportedVersion => "unsupported protocol version"@,
            WsPrismError::Internal(m) => "internal: "@ + m@,
            WsPrismError::ResourceExhausted(m) => "resource exhausted: "@ + m@,
            WsPrismError::TooManySessions => "too many sessions"@,
            WsPrismError::Timeout => "timeout"@,
        }
    }

    /// The text that describes the error.
    pub fn describe(&self) -> (s: String)
        ensures
            s@ == self.description(),
    {
        match self {
            WsPrismError::BadRequest(m) => {
                let mut s = "bad request: ".to_owned();
                s.append(m.as_str());
                s
            },
            WsPrismError::AuthFailed => "auth failed".to_owned(),
            WsPrismError::RateLimited => "rate limited".to_owned(),
            WsPrismError::PayloadTooLarge => "payload too large".to_owned(),
            WsPrismError::NotAllowed(m) => {
                let mut s = "not allowed: ".to_owned();
                s.append(m.as_str());
                s
            },
            WsPrismError::UnsupportedVersion => "unsupported protocol version".to_owned(),
            WsPrismError::Internal(m) => {
                let mut s = "internal: ".to_owned();
                s.append(m.as_str());
                s
            },
            WsPrismError::ResourceExhausted(m) => {
                let mut s = "resource exhausted: ".to_owned();
                s.append(m.as_str());
                s
            },
            WsPrismError::TooManySessions => "too many sessions".to_owned(),
            WsPrismError::Timeout => "timeout".to_owned(),
        }
    }

    /// Whether this is an `Internal` that carries exactly `msg`.
    pub open spec fn is_internal(self, msg: Seq<char>) -> bool {
        match self {
            WsPrismError::Internal(m) => m@ == msg,
            _ => false,
        }
    }

    /// Map an error to its stable client-facing code.
    pub fn client_code(&self) -> (c: ClientCode)
        ensures
            c == self.code(),
    {
        match self {
            WsPrismError::BadRequest(_) => ClientCode::BadRequest,
            WsPrismError::AuthFailed => ClientCode::AuthFailed,
            WsPrismError::RateLimited => ClientCode::RateLimited,
            WsPrismError::PayloadTooLarge => ClientCode::PayloadTooLarge,
            WsPrismError::NotAllowed(_) => ClientCode::NotAllowed,
            WsPrismError::UnsupportedVersion => ClientCode::UnsupportedVersion,
            WsPrismError::Internal(_) => ClientCode::Internal,
            WsPrismError::ResourceExhausted(_) => ClientCode::NotAllowed,
            WsPrismError::TooManySessions => ClientCode::TooManySessions,
            WsPrismError::Timeout => ClientCode::Timeout,
        }
    }
}

/// Errors of the transport edge.
#[derive(Debug)]
pub enum AppError {
    /// Malformed input, with a reason.
    BadRequest(String),
    /// The ticket did not resolve to a user.
    AuthFailed,
    /// The socket failed, with a reason.
    WebSocket(String),
    /// A deadline passed.
    Timeout,
    /// Internal failure, with a reason.
    Internal(String),
}

impl AppError {
    /// The code of each error.
    pub open spec fn code_name(self) -> Seq<char> {
        match self {
            AppError::BadRequest(_) => "BAD_REQUEST"@,
            AppError::AuthFailed => "AUTH_FAILED"@,
            AppError::WebSocket(_) => "WEBSOCKET"@,
            AppError::Timeout => "TIMEOUT"@,
            AppError::Internal(_) => "INTERNAL"@,
        }
    }

    /// The client-facing code of the error.
    pub fn client_code(&self) -> (c: &'static str)
        ensures
            c@ == self.code_name(),
    {
        match self {
            AppError::BadRequest(_) => "BAD_REQUEST",
            AppError::AuthFailed => "AUTH_FAILED",
            AppError::WebSocket(_) => "WEBSOCKET",
            AppError::Timeout => "TIMEOUT",
            AppError::Internal(_) => "INTERNAL",
        }
    }
}

/// Whether `res` is a failure with a `BadRequest` that carries exactly `msg`.
pub open spec fn fails_bad_request<T>(res: Result<T, WsPrismError>, msg: Seq<char>) -> bool {
    match res {
        Ok(_) => false,
        Err(e) => e.is_bad_request(msg),
    }
}

/// Whether `res` is a failure with a `ResourceExhausted` that carries
/// exactly `msg`.
pub open spec fn fails_resource_exhausted<T>(res: Result<T, WsPrismError>, msg: Seq<char>) -> bool {
    match res {
        Ok(_) => false,
        Err(e) => e.is_resource_exhausted(msg),
    }
}

/// Whether `res` is a failure with an `Internal` that carries exactly
/// `msg`.
pub open spec fn fails_internal<T>(res: Result<T, WsPrismError>, msg: Seq<char>) -> bool {
    match res {
        Ok(_) => false,
        Err(e) => e.is_internal(msg),
    }
}

} // verus!
