//! The errors that the client reports.
use vstd::prelude::*;

verus! {

/// What the HTTP client reports of a request that failed.
#[derive(Debug)]
pub struct RequestFailure {
    /// The HTTP client's description of the error.
    pub text: String,
    /// The HTTP status of the answer, when the failure is an error status.
    pub status: Option<u16>,
    /// Whether the request ran out of time.
    pub is_timeout: bool,
}

/// The errors of the client. Where an error comes from another library (the
/// HTTP client, the environment), it carries that library's description of it.
#[derive(Debug)]
pub enum Error {
    /// An error occurred when processing a request.
    ClientError(RequestFailure),
    /// The API key does not make a valid `Authorization` header.
    InvalidHeaderValue(String),
    /// An error reported by the API backend.
    BackendError {
        /// Message, describing this error
        message: String,
        /// The type of error
        code: String,
    },
    /// An environment variable could not be read.
    InvalidEnvValue(String),
}

/// The text that describes an error.
pub open spec fn error_text(error: Error) -> Seq<char> {
    match error {
        Error::ClientError(failure) => "An error occurred when processing a request: "@ + failure.text@,
        Error::InvalidHeaderValue(text) => "Invalid configuration provided: "@ + text@,
        Error::BackendError { message, code } => "An error (code: "@ + code@
            + ") occurred on the API backend: "@ + message@,
        Error::InvalidEnvValue(text) => "Invalid env value: "@ + text@,
    }
}

impl Error {
    /// The text that describes the error (what displaying it shows).
    pub fn to_string(&self) -> (text: String)
        ensures
            text@ == error_text(*self),
    {
        match self {
            Error::ClientError(failure) => {
                let mut s = String::from_str("An error occurred when processing a request: ");
                s.append(failure.text.as_str());
                s
            },
            Error::InvalidHeaderValue(text) => {
                let mut s = String::from_str("Invalid configuration provided: ");
                s.append(text.as_str());
                s
            },
            Error::BackendError { message, code } => {
                let mut s = String::from_str("An error (code: ");
                s.append(code.as_str());
                s.append(") occurred on the API backend: ");
                s.append(message.as_str());
                assert(s@ =~= error_text(*self));
                s
            },
            Error::InvalidEnvValue(text) => {
                let mut s = String::from_str("Invalid env value: ");
                s.append(text.as_str());
                s
            },
        }
    }
}

} // verus!
