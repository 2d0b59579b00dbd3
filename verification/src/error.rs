//! Errors of the HTTP API and the responses they become.

use vstd::prelude::*;
use crate::numbers::{decimal, decimal_string};
use crate::text::{prefixed, to_owned_string};

verus! {

/// An error of a request to the API.
#[derive(Debug, PartialEq, Eq)]
pub enum AppError {
    Unauthorized,
    RateLimited,
    /// The store failed.
    Redis,
    /// An upstream HTTP request failed.
    Reqwest,
    /// Serialization failed.
    Json,
    BadRequest(String),
    ProviderUnavailable(String),
    /// Any other internal failure.
    Internal,
}

/// The HTTP status an error is answered with.
pub open spec fn status_of(e: AppError) -> u16 {
    match e {
        AppError::Unauthorized => 401,
        AppError::RateLimited => 429,
        AppError::BadRequest(_) => 400,
        AppError::ProviderUnavailable(_) => 503,
        AppError::Reqwest | AppError::Internal => 502,
        _ => 503,
    }
}

/// The message an error is answered with; store, serialization and upstream
/// details are never shown.
pub open spec fn message_of(e: AppError) -> Seq<char> {
    match e {
        AppError::Unauthorized => "Unauthorized"@,
        AppError::RateLimited => "Daily provider quota exhausted"@,
        AppError::BadRequest(m) => m@,
        AppError::ProviderUnavailable(m) => m@,
        AppError::Reqwest | AppError::Internal => "Upstream provider request failed"@,
        _ => "Service temporarily unavailable"@,
    }
}

impl AppError {
    /// The HTTP status of the response to this error.
    pub fn status_code(&self) -> (s: u16)
        ensures
            s == status_of(*self),
    {
        match self {
            AppError::Unauthorized => 401,
            AppError::RateLimited => 429,
            AppError::BadRequest(_) => 400,
            AppError::ProviderUnavailable(_) => 503,
            AppError::Reqwest | AppError::Internal => 502,
            _ => 503,
        }
    }

    /// The `error` message of the response to this error.
    pub fn public_message(&self) -> (m: String)
        ensures
            m@ == message_of(*self),
    {
        match self {
            AppError::Unauthorized => to_owned_string("Unauthorized"),
            AppError::RateLimited => to_owned_string("Daily provider quota exhausted"),
            AppError::BadRequest(m) => m.clone(),
            AppError::ProviderUnavailable(m) => m.clone(),
            AppError::Reqwest | AppError::Internal => to_owned_string(
                "Upstream provider request failed",
            ),
            _ => to_owned_string("Service temporarily unavailable"),
        }
    }
}

/// How a provider request failed, in the terms that may be reported: never
/// the provider's body, the URL or a credential.
#[derive(Debug, Clone, Copy, PartialEq, Eq, Structural)]
pub enum RequestFailure {
    Timeout,
    /// DNS, TCP or TLS failed.
    Connect,
    /// The provider answered with this HTTP status.
    Status(u16),
    /// Any other transport failure.
    Transport,
}

/// The sanitized description of a failed provider request.
pub open spec fn failure_detail_of(f: RequestFailure) -> Seq<char> {
    match f {
        RequestFailure::Timeout => "Request timed out"@,
        RequestFailure::Connect => "Connection failed (DNS, TCP or TLS); see server logs"@,
        RequestFailure::Status(code) => "HTTP "@ + decimal(code as nat),
        RequestFailure::Transport => "Request transport failed; see server logs"@,
    }
}

/// Describes a failed provider request for the logs and the provider's
/// health: its status code, or whether it timed out or could not connect.
pub fn failure_detail(f: RequestFailure) -> (r: String)
    ensures
        r@ == failure_detail_of(f),
{
    match f {
        RequestFailure::Timeout => to_owned_string("Request timed out"),
        RequestFailure::Connect => to_owned_string("Connection failed (DNS, TCP or TLS); see server logs"),
        RequestFailure::Status(code) => {
            let digits = decimal_string(code as u64);
            prefixed("HTTP ", digits.as_str())
        },
        RequestFailure::Transport => to_owned_string("Request transport failed; see server logs"),
    }
}

} // verus!
