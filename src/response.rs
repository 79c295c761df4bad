//! Response envelopes and payloads returned by the server.
use vstd::prelude::*;

verus! {

/// The envelope `{data, message?}` around every successful JSON reply.
#[derive(Debug, Clone)]
pub struct ApiResponse<T> {
    pub data: T,
    pub message: Option<String>,
}

impl<T> ApiResponse<T> {
    /// An envelope around `data` without a message.
    pub fn new(data: T) -> (r: ApiResponse<T>)
        ensures
            r.data == data,
            r.message is None,
    {
        ApiResponse { data, message: None }
    }

    /// An envelope around `data` with a message.
    pub fn with_message(data: T, message: &str) -> (r: ApiResponse<T>)
        ensures
            r.data == data,
            r.message matches Some(m) && m@ == message@,
    {
        ApiResponse { data, message: Some(message.to_owned()) }
    }
}

/// Register response data.
#[derive(Debug, Clone)]
pub struct RegisterResponseData {
    pub register_id: String,
}

/// Verify response data.
#[derive(Debug, Clone)]
pub struct VerifyResponseData {
    pub valid: bool,
}

/// Empty response data, for operations that return nothing.
#[derive(Debug, Clone, Default)]
pub struct EmptyData {}

/// Reply to a registration.
pub type RegisterResponse = ApiResponse<RegisterResponseData>;

/// Reply to a verification.
pub type VerifyResponse = ApiResponse<VerifyResponseData>;

/// Reply that carries no data.
pub type EmptyResponse = ApiResponse<EmptyData>;

/// A user list together with the ETag the server sent with it.
#[derive(Debug, Clone)]
pub struct UsersResponse<T> {
    pub data: T,
    pub etag: Option<String>,
}

impl<T> UsersResponse<T> {
    /// Pair `data` with its ETag.
    pub fn new(data: T, etag: Option<String>) -> (r: UsersResponse<T>)
        ensures
            r.data == data,
            r.etag == etag,
    {
        UsersResponse { data, etag }
    }
}

} // verus!
