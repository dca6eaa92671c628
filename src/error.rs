//! The errors of the client and their classification.

use vstd::prelude::*;

verus! {

/// Errors that can occur when talking to the service.
#[derive(Debug, Clone)]
pub enum EdgarApiError {
    /// Network-level failure (connection, timeout, TLS, DNS).
    NetworkError(String),
    /// Malformed response body.
    ParseError(String),
    /// Failure to form or send a request.
    RequestError(String),
    /// The service rejected the request.
    ApiError {
        /// HTTP status code.
        status: u16,
        /// Error message.
        message: String,
    },
    /// The service's rate limit was hit.
    RateLimitExceeded {
        /// Suggested wait in seconds, where the service gave one.
        retry_after: Option<u64>,
    },
    /// An identifier that is no valid CIK.
    InvalidCik(String),
    /// A file could not be read or written.
    IoError(String),
    /// An archive could not be read, or holds an entry that may not be written.
    ZipError(String),
    /// The HTTP client itself failed.
    HttpError(String),
}

/// Whether a request that failed with `e` may succeed if retried.
pub open spec fn error_is_transient(e: EdgarApiError) -> bool {
    match e {
        EdgarApiError::NetworkError(_) => true,
        EdgarApiError::ApiError { status, .. } => status == 429 || status == 503 || status >= 500,
        EdgarApiError::RateLimitExceeded { .. } => true,
        _ => false,
    }
}

impl EdgarApiError {
    /// Whether the request may succeed if retried: network failures, rate
    /// limits, and service errors with status 429, 503 or any 5xx.
    pub fn is_transient(&self) -> (r: bool)
        ensures
            r == error_is_transient(*self),
    {
        match self {
            EdgarApiError::NetworkError(_) => true,
            EdgarApiError::ApiError { status, .. } => *status == 429 || *status == 503 || *status
                >= 500,
            EdgarApiError::RateLimitExceeded { .. } => true,
            _ => false,
        }
    }

    /// Whether the error comes from rate limiting.
    pub fn is_rate_limited(&self) -> (r: bool)
        ensures
            r == (self is RateLimitExceeded || (self matches EdgarApiError::ApiError { status, .. }
                && status == 429)),
    {
        match self {
            EdgarApiError::RateLimitExceeded { .. } => true,
            EdgarApiError::ApiError { status, .. } => *status == 429,
            _ => false,
        }
    }

    /// A network error with the given message.
    pub fn network(msg: &str) -> (r: EdgarApiError)
        ensures
            r matches EdgarApiError::NetworkError(m) && m@ == msg@,
    {
        EdgarApiError::NetworkError(String::from_str(msg))
    }

    /// A parse error with the given message.
    pub fn parse(msg: &str) -> (r: EdgarApiError)
        ensures
            r matches EdgarApiError::ParseError(m) && m@ == msg@,
    {
        EdgarApiError::ParseError(String::from_str(msg))
    }

    /// A request error with the given message.
    pub fn request(msg: &str) -> (r: EdgarApiError)
        ensures
            r matches EdgarApiError::RequestError(m) && m@ == msg@,
    {
        EdgarApiError::RequestError(String::from_str(msg))
    }

    /// An error returned by the service.
    pub fn api(status: u16, message: &str) -> (r: EdgarApiError)
        ensures
            r matches EdgarApiError::ApiError { status: s, message: m } && s == status && m@
                == message@,
    {
        EdgarApiError::ApiError { status, message: String::from_str(message) }
    }

    /// A rate-limit error.
    pub fn rate_limit(retry_after: Option<u64>) -> (r: EdgarApiError)
        ensures
            r == (EdgarApiError::RateLimitExceeded { retry_after }),
    {
        EdgarApiError::RateLimitExceeded { retry_after }
    }

    /// An invalid-CIK error naming the identifier.
    pub fn invalid_cik(cik: &str) -> (r: EdgarApiError)
        ensures
            r matches EdgarApiError::InvalidCik(m) && m@ == cik@,
    {
        EdgarApiError::InvalidCik(String::from_str(cik))
    }

    /// An archive error with the given message.
    pub fn zip(msg: &str) -> (r: EdgarApiError)
        ensures
            r matches EdgarApiError::ZipError(m) && m@ == msg@,
    {
        EdgarApiError::ZipError(String::from_str(msg))
    }
}

} // verus!
