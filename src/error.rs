//! The closed error taxonomy of API operations.
use vstd::prelude::*;

verus! {

/// A transport failure reported by the HTTP client.
#[verifier::external_type_specification]
#[verifier::external_body]
pub struct ExReqwestError(reqwest::Error);

/// A JSON encoding or decoding failure.
#[verifier::external_type_specification]
#[verifier::external_body]
pub struct ExJsonError(serde_json::Error);

/// Error types for API operations.
#[derive(Debug, Clone, Copy, PartialEq, Eq, Structural)]
pub enum ErrorType {
    /// HTTP 4xx/5xx errors
    ServerError,
    /// Connection/network failures
    NetworkError,
    /// JSON parsing failures
    ParseError,
    /// HTTP 304 Not Modified
    NotModified,
    /// Unexpected errors
    Unknown,
}

/// API error with detailed information.
#[derive(Debug)]
pub enum ApiError {
    /// The server answered with a status that is neither 2xx nor 304.
    ServerError { status_code: u16, message: String, url: String },
    /// The request could not be carried out (connection, timeout, TLS).
    NetworkError { message: String, url: String, source: Option<reqwest::Error> },
    /// A body could not be decoded.
    ParseError { message: String, url: String, source: Option<serde_json::Error> },
    /// The server answered 304: the cached data is still valid.
    NotModified { url: String },
    /// Anything else.
    Unknown { message: String },
    /// The client could not be constructed.
    ConfigError { message: String },
    /// A configuration was narrowed to the wrong protocol.
    TypeConversionError { expected: String, actual: String },
}

/// The kind that `ApiError::error_type` reports for `e`.
pub open spec fn error_type_of(e: ApiError) -> ErrorType {
    match e {
        ApiError::ServerError { .. } => ErrorType::ServerError,
        ApiError::NetworkError { .. } => ErrorType::NetworkError,
        ApiError::ParseError { .. } => ErrorType::ParseError,
        ApiError::NotModified { .. } => ErrorType::NotModified,
        ApiError::Unknown { .. } => ErrorType::Unknown,
        ApiError::ConfigError { .. } => ErrorType::Unknown,
        ApiError::TypeConversionError { .. } => ErrorType::Unknown,
    }
}

impl ApiError {
    /// Get the error type.
    pub fn error_type(&self) -> (r: ErrorType)
        ensures
            r == error_type_of(*self),
    {
        match self {
            ApiError::ServerError { .. } => ErrorType::ServerError,
            ApiError::NetworkError { .. } => ErrorType::NetworkError,
            ApiError::ParseError { .. } => ErrorType::ParseError,
            ApiError::NotModified { .. } => ErrorType::NotModified,
            ApiError::Unknown { .. } => ErrorType::Unknown,
            ApiError::ConfigError { .. } => ErrorType::Unknown,
            ApiError::TypeConversionError { .. } => ErrorType::Unknown,
        }
    }

    /// Check if this is a server error (4xx/5xx).
    pub fn is_server_error(&self) -> (r: bool)
        ensures
            r == (*self is ServerError),
    {
        matches!(self, ApiError::ServerError { .. })
    }

    /// Check if this is a network error.
    pub fn is_network_error(&self) -> (r: bool)
        ensures
            r == (*self is NetworkError),
    {
        matches!(self, ApiError::NetworkError { .. })
    }

    /// Check if this is a parse error.
    pub fn is_parse_error(&self) -> (r: bool)
        ensures
            r == (*self is ParseError),
    {
        matches!(self, ApiError::ParseError { .. })
    }

    /// Check if this is a 304 Not Modified response.
    pub fn is_not_modified(&self) -> (r: bool)
        ensures
            r == (*self is NotModified),
    {
        matches!(self, ApiError::NotModified { .. })
    }

    /// Create a server error from a status code.
    pub fn from_status_code(status_code: u16, message: &str, url: &str) -> (r: ApiError)
        ensures
            r matches ApiError::ServerError { status_code: s, message: m, url: u }
                && s == status_code && m@ == message@ && u@ == url@,
    {
        ApiError::ServerError { status_code, message: message.to_owned(), url: url.to_owned() }
    }

    /// Create a network error.
    pub fn network_error(message: &str, url: &str, source: Option<reqwest::Error>) -> (r: ApiError)
        ensures
            r matches ApiError::NetworkError { message: m, url: u, source: s }
                && m@ == message@ && u@ == url@ && s == source,
    {
        ApiError::NetworkError { message: message.to_owned(), url: url.to_owned(), source }
    }

    /// Create a parse error.
    pub fn parse_error(message: &str, url: &str, source: Option<serde_json::Error>) -> (r: ApiError)
        ensures
            r matches ApiError::ParseError { message: m, url: u, source: s }
                && m@ == message@ && u@ == url@ && s == source,
    {
        ApiError::ParseError { message: message.to_owned(), url: url.to_owned(), source }
    }

    /// Create a not-modified signal.
    pub fn not_modified(url: &str) -> (r: ApiError)
        ensures
            r matches ApiError::NotModified { url: u } && u@ == url@,
    {
        ApiError::NotModified { url: url.to_owned() }
    }

    /// Create a configuration error.
    pub fn config_error(message: &str) -> (r: ApiError)
        ensures
            r matches ApiError::ConfigError { message: m } && m@ == message@,
    {
        ApiError::ConfigError { message: message.to_owned() }
    }

    /// Create a type conversion error.
    pub fn type_conversion_error(expected: &str, actual: &str) -> (r: ApiError)
        ensures
            r matches ApiError::TypeConversionError { expected: e, actual: a }
                && e@ == expected@ && a@ == actual@,
    {
        ApiError::TypeConversionError { expected: expected.to_owned(), actual: actual.to_owned() }
    }
}

/// Result type of API operations.
pub type Result<T> = std::result::Result<T, ApiError>;

} // verus!
