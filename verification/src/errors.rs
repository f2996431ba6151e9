//! Typed failures surfaced by the session core, and the error shape the
//! command layer forwards to the user interface.

use crate::text::{spec_dec, u16_to_string};
use vstd::prelude::*;
use vstd::string::StringExecFns;

verus! {

/// Failure taxonomy of the core. None of these is retried internally:
/// the caller owns retry policy.
#[derive(Debug, Clone)]
pub enum ApiError {
    /// The remote service rejected the submitted credentials.
    AuthRejected,
    /// A second-factor code was rejected; the state machine did not advance.
    SecondFactorRejected,
    /// Resuming a previously persisted session failed.
    SessionInvalid,
    /// A non-success reply other than the above, or a connectivity failure,
    /// carrying the status observed (0 when no status was received).
    TransportOrServiceError { status: u16 },
    /// Durable read, write or serialization of cookie material failed.
    PersistenceError { message: String },
    /// A metadata fetch after a cache miss failed remotely.
    FetchFailed,
}

/// Ghost image of `ApiError`, with text as a character sequence.
pub ghost enum ApiErrorV {
    AuthRejected,
    SecondFactorRejected,
    SessionInvalid,
    TransportOrServiceError { status: u16 },
    PersistenceError { message: Seq<char> },
    FetchFailed,
}

impl View for ApiError {
    type V = ApiErrorV;

    open spec fn view(&self) -> ApiErrorV {
        match self {
            ApiError::AuthRejected => ApiErrorV::AuthRejected,
            ApiError::SecondFactorRejected => ApiErrorV::SecondFactorRejected,
            ApiError::SessionInvalid => ApiErrorV::SessionInvalid,
            ApiError::TransportOrServiceError { status } => ApiErrorV::TransportOrServiceError {
                status: *status,
            },
            ApiError::PersistenceError { message } => ApiErrorV::PersistenceError {
                message: message@,
            },
            ApiError::FetchFailed => ApiErrorV::FetchFailed,
        }
    }
}

/// The user-displayable message of each failure. A transport failure
/// renders as the decimal status observed.
pub open spec fn spec_error_message(e: ApiErrorV) -> Seq<char> {
    match e {
        ApiErrorV::AuthRejected => "errors.loginFail"@,
        ApiErrorV::SecondFactorRejected => "errors.2faFail"@,
        ApiErrorV::SessionInvalid => "errors.unauthorized"@,
        ApiErrorV::TransportOrServiceError { status } => spec_dec(status as int),
        ApiErrorV::PersistenceError { message } => message,
        ApiErrorV::FetchFailed => "Failed..."@,
    }
}

impl ApiError {
    /// Renders the failure for display.
    pub fn message(&self) -> (r: String)
        ensures
            r@ == spec_error_message(self@),
    {
        match self {
            ApiError::AuthRejected => String::from_str("errors.loginFail"),
            ApiError::SecondFactorRejected => String::from_str("errors.2faFail"),
            ApiError::SessionInvalid => String::from_str("errors.unauthorized"),
            ApiError::TransportOrServiceError { status } => u16_to_string(*status),
            ApiError::PersistenceError { message } => message.clone(),
            ApiError::FetchFailed => String::from_str("Failed..."),
        }
    }

    /// The command layer's error shape for this failure.
    pub fn to_rust_error(&self) -> (r: RustError)
        ensures
            r matches RustError::Unrecoverable { message } && message@ == spec_error_message(
                self@,
            ),
    {
        RustError::unrecoverable(self.message())
    }
}

/// The error shape handed to the user interface by the command layer.
#[derive(Debug, Clone)]
pub enum RustError {
    Unrecoverable { message: String },
}

impl RustError {
    /// Wraps a rendered message as the single unrecoverable variant.
    pub fn unrecoverable(message: String) -> (r: Self)
        ensures
            r matches RustError::Unrecoverable { message: m } && m@ == message@,
    {
        RustError::Unrecoverable { message }
    }
}

} // verus!
