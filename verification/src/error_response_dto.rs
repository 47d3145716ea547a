//! The one shape in which every failure is reported.

use vstd::prelude::*;
use vstd::string::*;

use crate::error_code::ErrorCode;

verus! {

/// A failure as the caller sees it.
#[derive(Debug, Clone, PartialEq, Eq)]
pub struct ErrorResponseDto {
    pub error_code: ErrorCode,
    pub error_description: Option<String>,
    pub message: String,
    pub status_code: u16,
}

/// A failure as mathematical text.
pub struct ErrorResponseView {
    pub error_code: ErrorCode,
    pub error_description: Option<Seq<char>>,
    pub message: Seq<char>,
    pub status_code: u16,
}

impl View for ErrorResponseDto {
    type V = ErrorResponseView;

    open spec fn view(&self) -> ErrorResponseView {
        ErrorResponseView {
            error_code: self.error_code,
            error_description: match self.error_description {
                Some(text) => Some(text@),
                None => None,
            },
            message: self.message@,
            status_code: self.status_code,
        }
    }
}

/// The report of a failure inside the service.
pub open spec fn internal_server_error_view() -> ErrorResponseView {
    ErrorResponseView {
        error_code: ErrorCode::InternalServerError,
        error_description: None,
        message: "Internal server error"@,
        status_code: 500,
    }
}

/// The report of a request for a path that the service does not serve.
pub open spec fn not_found_view() -> ErrorResponseView {
    ErrorResponseView {
        error_code: ErrorCode::NotFound,
        error_description: None,
        message: "Not Found"@,
        status_code: 404,
    }
}

impl ErrorResponseDto {
    /// The status with which the failure is answered.
    pub fn status_code(&self) -> (status: u16)
        ensures
            status == self.status_code,
    {
        self.status_code
    }

    /// The report of a failure inside the service: status 500.
    pub fn internal_server_error() -> (response: ErrorResponseDto)
        ensures
            response@ == internal_server_error_view(),
    {
        ErrorResponseDto {
            error_code: ErrorCode::InternalServerError,
            error_description: None,
            message: String::from_str("Internal server error"),
            status_code: 500,
        }
    }

    /// The report of a request for an unknown path: status 404.
    pub fn not_found() -> (response: ErrorResponseDto)
        ensures
            response@ == not_found_view(),
    {
        ErrorResponseDto {
            error_code: ErrorCode::NotFound,
            error_description: None,
            message: String::from_str("Not Found"),
            status_code: 404,
        }
    }
}

} // verus!
