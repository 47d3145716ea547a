use auth0_rbac::client_error::ClientError;
use auth0_rbac::config::{Auth0Config, Config};
use auth0_rbac::error_code::ErrorCode;
use auth0_rbac::error_response_dto::ErrorResponseDto;
use auth0_rbac::message_dto::MessageDto;
use auth0_rbac::message_permissions::MessagePermissions;

fn sample_config(domain: &str) -> Auth0Config {
    Auth0Config {
        audience: "https://hello-world.example.com".to_string(),
        domain: domain.to_string(),
        client_id: "client".to_string(),
        client_secret: "hidden".to_string(),
    }
}

#[test]
fn error_codes_are_written_by_name() {
    assert_eq!(ErrorCode::OidcError.to_string(), "OidcError");
    assert_eq!(ErrorCode::InsufficientPermissions.to_string(), "InsufficientPermissions");
    assert_eq!(ErrorCode::InvalidToken.to_string(), "InvalidToken");
    assert_eq!(ErrorCode::InternalServerError.to_string(), "InternalServerError");
    assert_eq!(ErrorCode::NotFound.to_string(), "NotFound");
}

#[test]
fn error_codes_are_read_by_name() {
    assert_eq!(ErrorCode::from_name("OidcError"), Some(ErrorCode::OidcError));
    assert_eq!(
        ErrorCode::from_name("InsufficientPermissions"),
        Some(ErrorCode::InsufficientPermissions)
    );
    assert_eq!(ErrorCode::from_name("InvalidToken"), Some(ErrorCode::InvalidToken));
    assert_eq!(ErrorCode::from_name("InternalServerError"), Some(ErrorCode::InternalServerError));
    assert_eq!(ErrorCode::from_name("NotFound"), Some(ErrorCode::NotFound));
}

#[test]
fn only_exact_names_are_error_codes() {
    assert_eq!(ErrorCode::from_name(""), None);
    assert_eq!(ErrorCode::from_name("notfound"), None);
    assert_eq!(ErrorCode::from_name("NotFound "), None);
    assert_eq!(ErrorCode::from_name("Invalid"), None);
    assert_eq!(ErrorCode::from_name("invalid_token"), None);
}

#[test]
fn an_error_code_that_is_written_is_read_again() {
    let codes = vec![
        ErrorCode::OidcError,
        ErrorCode::InsufficientPermissions,
        ErrorCode::InvalidToken,
        ErrorCode::InternalServerError,
        ErrorCode::NotFound,
    ];
    for code in codes {
        assert_eq!(ErrorCode::from_name(&code.to_string()), Some(code));
    }
}

#[test]
fn admin_permission_is_read_by_its_token_name() {
    assert_eq!(
        MessagePermissions::from_name("read:admin_messages"),
        Some(MessagePermissions::ReadAdminMessages)
    );
    assert_eq!(
        MessagePermissions::from_name(&MessagePermissions::ReadAdminMessages.to_string()),
        Some(MessagePermissions::ReadAdminMessages)
    );
    assert_eq!(MessagePermissions::from_name("ReadAdminMessages"), None);
    assert_eq!(MessagePermissions::from_name("read:admin-messages"), None);
    assert_eq!(MessagePermissions::from_name(""), None);
}

#[test]
fn admin_permission_has_its_token_name() {
    assert_eq!(MessagePermissions::ReadAdminMessages.to_string(), "read:admin_messages");
}

#[test]
fn issuer_is_the_domain_as_https_address() {
    let config = sample_config("tenant.eu.auth0.com");
    assert_eq!(config.issuer(), "https://tenant.eu.auth0.com/");
}

#[test]
fn key_set_address_is_the_well_known_path() {
    let config = sample_config("tenant.eu.auth0.com");
    assert_eq!(config.jwks_url(), "https://tenant.eu.auth0.com/.well-known/jwks.json");
}

#[test]
fn addresses_of_an_empty_domain() {
    let config = sample_config("");
    assert_eq!(config.issuer(), "https:///");
    assert_eq!(config.jwks_url(), "https:///.well-known/jwks.json");
}

#[test]
fn service_config_keeps_its_fields() {
    let config = Config { port: 6060, client_origin_url: "http://localhost:4040".to_string() };
    assert_eq!(config.port, 6060);
    assert_eq!(config.client_origin_url, "http://localhost:4040");
}

#[test]
fn internal_error_report() {
    let report = ErrorResponseDto::internal_server_error();
    assert_eq!(
        report,
        ErrorResponseDto {
            error_code: ErrorCode::InternalServerError,
            error_description: None,
            message: "Internal server error".to_string(),
            status_code: 500,
        }
    );
    assert_eq!(report.status_code(), 500);
}

#[test]
fn not_found_report() {
    let report = ErrorResponseDto::not_found();
    assert_eq!(
        report,
        ErrorResponseDto {
            error_code: ErrorCode::NotFound,
            error_description: None,
            message: "Not Found".to_string(),
            status_code: 404,
        }
    );
    assert_eq!(report.status_code(), 404);
}

#[test]
fn message_is_sent_with_status_200() {
    let message = MessageDto {
        api: "a".to_string(),
        branch: "b".to_string(),
        text: "c".to_string(),
    };
    assert_eq!(message.status_code(), 200);
}

#[test]
fn missing_credentials_report() {
    let report = ClientError::Authentication.error_response();
    assert_eq!(
        report,
        ErrorResponseDto {
            error_code: ErrorCode::InvalidToken,
            error_description: None,
            message: "Requires authentication".to_string(),
            status_code: 401,
        }
    );
}

#[test]
fn decode_failure_report() {
    let report = ClientError::Decode("ExpiredSignature".to_string()).error_response();
    assert_eq!(
        report,
        ErrorResponseDto {
            error_code: ErrorCode::InvalidToken,
            error_description: Some(
                "Authorization header value must follow this format: Bearer access-token.\n ExpiredSignature"
                    .to_string()
            ),
            message: "Bad credentials".to_string(),
            status_code: 401,
        }
    );
}

#[test]
fn missing_key_report() {
    let report = ClientError::NotFound("No JWK found for kid".to_string()).error_response();
    assert_eq!(
        report,
        ErrorResponseDto {
            error_code: ErrorCode::InvalidToken,
            error_description: Some("No JWK found for kid".to_string()),
            message: "Bad credentials".to_string(),
            status_code: 401,
        }
    );
}

#[test]
fn unsupported_key_report() {
    let report = ClientError::UnsupportedAlgorithm("OctetKey".to_string()).error_response();
    assert_eq!(
        report,
        ErrorResponseDto {
            error_code: ErrorCode::InvalidToken,
            error_description: Some(
                "Unsupported encryption algorithm expected RSA got OctetKey".to_string()
            ),
            message: "Bad credentials".to_string(),
            status_code: 401,
        }
    );
}

#[test]
fn key_set_request_failure_report() {
    let report = ClientError::RequestJwksError.error_response();
    assert_eq!(
        report,
        ErrorResponseDto {
            error_code: ErrorCode::InvalidToken,
            error_description: Some("Failed to get jwks.json".to_string()),
            message: "Bad credentials".to_string(),
            status_code: 401,
        }
    );
}

#[test]
fn key_set_parse_failure_report() {
    let report = ClientError::ParseJwksError.error_response();
    assert_eq!(
        report,
        ErrorResponseDto {
            error_code: ErrorCode::InvalidToken,
            error_description: Some("Failed to parse jwks.json".to_string()),
            message: "Bad credentials".to_string(),
            status_code: 401,
        }
    );
}

#[test]
fn every_authentication_failure_has_status_401() {
    let reasons = vec![
        ClientError::Authentication,
        ClientError::Decode("InvalidSignature".to_string()),
        ClientError::NotFound("kid not found in token header".to_string()),
        ClientError::UnsupportedAlgorithm("EllipticCurve".to_string()),
        ClientError::RequestJwksError,
        ClientError::ParseJwksError,
    ];
    for reason in reasons {
        assert_eq!(reason.status_code(), 401);
        let report = reason.error_response();
        assert_eq!(report.status_code, 401);
        assert_eq!(report.error_code, ErrorCode::InvalidToken);
    }
}
