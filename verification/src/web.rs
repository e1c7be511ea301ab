//! Value types of the HTTP and WebSocket layer.
//!
//! The web framework is outside the core; these are the envelope every
//! handler answers with, the request shapes, and the numeric error codes
//! the clients key on.

use vstd::prelude::*;

use crate::db::PageResult;

verus! {

/// The error codes the API reports to clients.
#[derive(Clone, Copy, Debug, PartialEq, Eq, Structural)]
pub enum ErrorCode {
    Success,
    InvalidUsernameOrPassword,
    Unauthorized,
    InternalError,
}

impl ErrorCode {
    /// The numeric code sent over the wire.
    pub fn as_u32(&self) -> (r: u32)
        ensures
            *self == ErrorCode::Success ==> r == 0,
            *self == ErrorCode::InvalidUsernameOrPassword ==> r == 10001,
            *self == ErrorCode::Unauthorized ==> r == 10002,
            *self == ErrorCode::InternalError ==> r == 50001,
    {
        match self {
            ErrorCode::Success => 0,
            ErrorCode::InvalidUsernameOrPassword => 10001,
            ErrorCode::Unauthorized => 10002,
            ErrorCode::InternalError => 50001,
        }
    }
}

/// The response envelope of every API handler: a code, a success flag, the
/// moment of the answer, and an optional payload with a message.
#[derive(Clone, Debug)]
pub struct WebResponse<T> {
    pub code: ErrorCode,
    pub success: bool,
    pub timestamp: i64,
    pub result: Option<T>,
    pub message: String,
}

/// Relies on chrono::Local::now for the current Unix timestamp in seconds;
/// the wall clock decides the value, so nothing is promised of it.
#[verifier::external_body]
fn now_timestamp() -> i64 {
    chrono::Local::now().timestamp()
}

impl<T> WebResponse<T> {
    /// A failure envelope without payload or message.
    pub fn with_error_code(code: &ErrorCode) -> (r: Self)
        ensures
            r.code == *code,
            !r.success,
            r.result is None,
            r.message@.len() == 0,
    {
        WebResponse {
            code: *code,
            success: false,
            timestamp: now_timestamp(),
            result: None,
            message: String::new(),
        }
    }

    /// A failure envelope with a message.
    pub fn with_error_code_and_message(code: &ErrorCode, message: String) -> (r: Self)
        ensures
            r.code == *code,
            !r.success,
            r.result is None,
            r.message == message,
    {
        WebResponse {
            code: *code,
            success: false,
            timestamp: now_timestamp(),
            result: None,
            message,
        }
    }

    /// A success envelope carrying a payload.
    pub fn with_result(result: T) -> (r: Self)
        ensures
            r.code == ErrorCode::Success,
            r.success,
            r.result == Some(result),
            r.message@.len() == 0,
    {
        WebResponse {
            code: ErrorCode::Success,
            success: true,
            timestamp: now_timestamp(),
            result: Some(result),
            message: String::new(),
        }
    }

    /// A success envelope carrying a payload and a message.
    pub fn with_result_and_message(result: T, message: String) -> (r: Self)
        ensures
            r.code == ErrorCode::Success,
            r.success,
            r.result == Some(result),
            r.message == message,
    {
        WebResponse {
            code: ErrorCode::Success,
            success: true,
            timestamp: now_timestamp(),
            result: Some(result),
            message,
        }
    }
}

/// The page shape the API answers with.
#[derive(Clone, Debug)]
pub struct Pagination<D> {
    pub records: Vec<D>,
    pub total: u64,
    pub current: u64,
    pub size: u64,
    pub pages: u64,
}

impl<T> From<PageResult<T>> for Pagination<T> {
    /// Rename the fields of a query page into the API's page shape.
    fn from(value: PageResult<T>) -> (r: Self) {
        Pagination {
            records: value.records,
            total: value.total_count,
            current: value.page_index,
            size: value.page_size,
            pages: value.pages,
        }
    }
}

impl<T> vstd::std_specs::convert::FromSpecImpl<PageResult<T>> for Pagination<T> {
    open spec fn obeys_from_spec() -> bool {
        true
    }

    open spec fn from_spec(value: PageResult<T>) -> Self {
        Pagination {
            records: value.records,
            total: value.total_count,
            current: value.page_index,
            size: value.page_size,
            pages: value.pages,
        }
    }
}

/// The request shape of the log page endpoint.
#[derive(Clone, Copy, Debug, PartialEq, Eq, Structural)]
pub struct PageLogsRequest {
    pub page_index: u64,
    pub page_size: u64,
}

/// The request shape of the login endpoint.
#[derive(Clone, Debug)]
pub struct UserLoginRequest {
    pub username: String,
    pub password: String,
}

/// One message on the WebSocket stream: a topic and its payload.
#[derive(Clone, Debug)]
pub struct WsMessage<T> {
    pub topic: String,
    pub payload: T,
}

} // verus!
