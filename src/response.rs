//! Failure kinds of the use cases, their transport status, and the
//! response envelope that carries results and errors to callers.

use vstd::prelude::*;

verus! {

/// How a use case failed; each kind carries the message for the caller.
#[derive(Debug, Clone)]
pub enum UseCaseError {
    BadRequest(String),
    Unauthorized(String),
    NotFound(String),
    Conflict(String),
    Internal(String),
}

pub const STATUS_OK: u16 = 200;
pub const STATUS_BAD_REQUEST: u16 = 400;
pub const STATUS_UNAUTHORIZED: u16 = 401;
pub const STATUS_NOT_FOUND: u16 = 404;
pub const STATUS_CONFLICT: u16 = 409;
pub const STATUS_INTERNAL: u16 = 500;

impl UseCaseError {
    pub open spec fn status_spec(&self) -> u16 {
        match self {
            UseCaseError::BadRequest(_) => STATUS_BAD_REQUEST,
            UseCaseError::Unauthorized(_) => STATUS_UNAUTHORIZED,
            UseCaseError::NotFound(_) => STATUS_NOT_FOUND,
            UseCaseError::Conflict(_) => STATUS_CONFLICT,
            UseCaseError::Internal(_) => STATUS_INTERNAL,
        }
    }

    pub open spec fn message_spec(&self) -> Seq<char> {
        match self {
            UseCaseError::BadRequest(m) => m@,
            UseCaseError::Unauthorized(m) => m@,
            UseCaseError::NotFound(m) => m@,
            UseCaseError::Conflict(m) => m@,
            UseCaseError::Internal(m) => m@,
        }
    }

    /// The transport status of this kind of failure.
    pub fn status_code(&self) -> (r: u16)
        ensures
            r == self.status_spec(),
    {
        match self {
            UseCaseError::BadRequest(_) => STATUS_BAD_REQUEST,
            UseCaseError::Unauthorized(_) => STATUS_UNAUTHORIZED,
            UseCaseError::NotFound(_) => STATUS_NOT_FOUND,
            UseCaseError::Conflict(_) => STATUS_CONFLICT,
            UseCaseError::Internal(_) => STATUS_INTERNAL,
        }
    }

    /// The message carried by this failure.
    pub fn message(&self) -> (r: &String)
        ensures
            r@ == self.message_spec(),
    {
        match self {
            UseCaseError::BadRequest(m) => m,
            UseCaseError::Unauthorized(m) => m,
            UseCaseError::NotFound(m) => m,
            UseCaseError::Conflict(m) => m,
            UseCaseError::Internal(m) => m,
        }
    }
}

/// The envelope of every response.
#[derive(Debug, Clone)]
pub struct GeneralResponse<T> {
    pub success: bool,
    pub data: T,
}

/// The payload of a failed response.
#[derive(Debug, Clone)]
pub struct ErrorResponse {
    pub status_code: i32,
    pub error_msg: String,
}

pub open spec fn status_as_i32(code: u16) -> i32 {
    if code == STATUS_OK || code == STATUS_BAD_REQUEST || code == STATUS_UNAUTHORIZED || code
        == STATUS_NOT_FOUND || code == STATUS_CONFLICT {
        code as i32
    } else {
        500
    }
}

/// The status number written into an error payload: the known statuses
/// keep their number, every other one becomes 500.
pub fn convert_status_code_to_i32(code: u16) -> (r: i32)
    ensures
        r == status_as_i32(code),
{
    if code == STATUS_OK || code == STATUS_BAD_REQUEST || code == STATUS_UNAUTHORIZED || code
        == STATUS_NOT_FOUND || code == STATUS_CONFLICT {
        code as i32
    } else {
        500
    }
}

/// The message shown in place of the details of an internal failure.
pub open spec fn internal_message() -> Seq<char> {
    "internal server error"@
}

/// The failure envelope for `err`: its status, and its message, except
/// that a status of 500 always carries the fixed generic message.
pub fn error_response(err: &UseCaseError) -> (r: GeneralResponse<ErrorResponse>)
    ensures
        !r.success,
        r.data.status_code == status_as_i32(err.status_spec()),
        r.data.status_code == err.status_spec() as i32,
        r.data.error_msg@ == if r.data.status_code == 500 {
            internal_message()
        } else {
            err.message_spec()
        },
{
    let status = convert_status_code_to_i32(err.status_code());
    proof {
        reveal_strlit("internal server error");
    }
    let error_msg = if status == 500 {
        String::from_str("internal server error")
    } else {
        err.message().clone()
    };
    GeneralResponse { success: false, data: ErrorResponse { status_code: status, error_msg } }
}

/// The success envelope around `data`.
pub fn success_response<T>(data: T) -> (r: GeneralResponse<T>)
    ensures
        r.success,
        r.data == data,
{
    GeneralResponse { success: true, data }
}

} // verus!
