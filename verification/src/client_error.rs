//! Why a request was not authenticated, and how that is reported.

use vstd::prelude::*;
use vstd::string::*;

use crate::error_code::ErrorCode;
use crate::error_response_dto::{ErrorResponseDto, ErrorResponseView};

verus! {

/// The status of every failed authentication.
pub const UNAUTHORIZED: u16 = 401;

/// The reason for which a request was not authenticated. The reasons are kept
/// apart for diagnosis; the caller sees the same status and code for all.
#[derive(Debug, Clone, PartialEq, Eq)]
pub enum ClientError {
    /// The request carried no usable bearer credentials.
    Authentication,
    /// The token could not be decoded or did not pass verification; the text
    /// says what was wrong with it.
    Decode(String),
    /// No key could be looked up; the text says what was missing.
    NotFound(String),
    /// The token's key is not an RSA key; the text describes the key.
    UnsupportedAlgorithm(String),
    /// The provider's key set could not be fetched.
    RequestJwksError,
    /// The provider's key set was fetched but could not be read.
    ParseJwksError,
}

/// A reason as mathematical text.
pub enum ClientErrorView {
    Authentication,
    Decode(Seq<char>),
    NotFound(Seq<char>),
    UnsupportedAlgorithm(Seq<char>),
    RequestJwksError,
    ParseJwksError,
}

impl View for ClientError {
    type V = ClientErrorView;

    open spec fn view(&self) -> ClientErrorView {
        match self {
            ClientError::Authentication => ClientErrorView::Authentication,
            ClientError::Decode(text) => ClientErrorView::Decode(text@),
            ClientError::NotFound(text) => ClientErrorView::NotFound(text@),
            ClientError::UnsupportedAlgorithm(text) => ClientErrorView::UnsupportedAlgorithm(text@),
            ClientError::RequestJwksError => ClientErrorView::RequestJwksError,
            ClientError::ParseJwksError => ClientErrorView::ParseJwksError,
        }
    }
}

/// The description that goes with each reason.
pub open spec fn description_of(reason: ClientErrorView) -> Option<Seq<char>> {
    match reason {
        ClientErrorView::Authentication => None,
        ClientErrorView::Decode(text) => Some(
            "Authorization header value must follow this format: Bearer access-token.\n "@ + text,
        ),
        ClientErrorView::NotFound(text) => Some(text),
        ClientErrorView::UnsupportedAlgorithm(text) => Some(
            "Unsupported encryption algorithm expected RSA got "@ + text,
        ),
        ClientErrorView::RequestJwksError => Some("Failed to get jwks.json"@),
        ClientErrorView::ParseJwksError => Some("Failed to parse jwks.json"@),
    }
}

/// The message that goes with each reason.
pub open spec fn message_of(reason: ClientErrorView) -> Seq<char> {
    match reason {
        ClientErrorView::Authentication => "Requires authentication"@,
        _ => "Bad credentials"@,
    }
}

/// The report of a failed authentication: always status 401 and the code
/// `InvalidToken`, whatever the reason.
pub open spec fn response_of(reason: ClientErrorView) -> ErrorResponseView {
    ErrorResponseView {
        error_code: ErrorCode::InvalidToken,
        error_description: description_of(reason),
        message: message_of(reason),
        status_code: UNAUTHORIZED,
    }
}

impl ClientError {
    /// The status with which the failure is answered.
    pub fn status_code(&self) -> (status: u16)
        ensures
            status == UNAUTHORIZED,
    {
        UNAUTHORIZED
    }

    /// The report that the caller receives for this failure.
    pub fn error_response(&self) -> (response: ErrorResponseDto)
        ensures
            response@ == response_of(self@),
    {
        match self {
            ClientError::Authentication => ErrorResponseDto {
                error_code: ErrorCode::InvalidToken,
                error_description: None,
                message: String::from_str("Requires authentication"),
                status_code: UNAUTHORIZED,
            },
            ClientError::Decode(text) => {
                let lead = String::from_str(
                    "Authorization header value must follow this format: Bearer access-token.\n ",
                );
                ErrorResponseDto {
                    error_code: ErrorCode::InvalidToken,
                    error_description: Some(lead.concat(text.as_str())),
                    message: String::from_str("Bad credentials"),
                    status_code: UNAUTHORIZED,
                }
            },
            ClientError::NotFound(text) => ErrorResponseDto {
                error_code: ErrorCode::InvalidToken,
                error_description: Some(text.clone()),
                message: String::from_str("Bad credentials"),
                status_code: UNAUTHORIZED,
            },
            ClientError::UnsupportedAlgorithm(text) => {
                let lead = String::from_str("Unsupported encryption algorithm expected RSA got ");
                ErrorResponseDto {
                    error_code: ErrorCode::InvalidToken,
                    error_description: Some(lead.concat(text.as_str())),
                    message: String::from_str("Bad credentials"),
                    status_code: UNAUTHORIZED,
                }
            },
            ClientError::RequestJwksError => ErrorResponseDto {
                error_code: ErrorCode::InvalidToken,
                error_description: Some(String::from_str("Failed to get jwks.json")),
                message: String::from_str("Bad credentials"),
                status_code: UNAUTHORIZED,
            },
            ClientError::ParseJwksError => ErrorResponseDto {
                error_code: ErrorCode::InvalidToken,
                error_description: Some(String::from_str("Failed to parse jwks.json")),
                message: String::from_str("Bad credentials"),
                status_code: UNAUTHORIZED,
            },
        }
    }
}

/// Every failed authentication is answered with status 401 and the code
/// `InvalidToken`: the report does not tell which step refused the token.
pub proof fn lemma_every_rejection_is_unauthorized(reason: ClientErrorView)
    ensures
        response_of(reason).status_code == 401,
        response_of(reason).error_code == ErrorCode::InvalidToken,
{
}

} // verus!
