//! Role-based access control for bearer tokens issued by an identity provider.
//!
//! The crate decides, step by step, whether a request carries a token that
//! names a published RSA key, which verification that token must pass, and
//! whether the permissions it grants cover what an endpoint requires.

pub mod api_doc;
pub mod config;
pub mod error_code;
pub mod error_response_dto;
pub mod message_dto;
pub mod token;
pub mod jwks;
pub mod client_error;
pub mod permission_set;
pub mod claims;
pub mod message_permissions;
pub mod extraction;
pub mod guard;
pub mod handlers;
