use auth0_rbac::client_error::ClientError;
use auth0_rbac::config::Auth0Config;
use auth0_rbac::error_code::ErrorCode;
use auth0_rbac::extraction::{
    advance, verification_request, verify_token, ExtractionAction, ExtractionEvent,
    ExtractionState,
};
use auth0_rbac::handlers::{admin, protected};
use auth0_rbac::jwks::{AlgorithmParameters, Jwk, JwkSet, RSAKeyParameters};
use num_bigint::BigUint;

const LETTERS: &[u8; 64] = b"ABCDEFGHIJKLMNOPQRSTUVWXYZabcdefghijklmnopqrstuvwxyz0123456789-_";

const AUDIENCE: &str = "https://hello-world.example.com";
const ISSUER: &str = "https://tenant.eu.auth0.com/";
const YEAR_2100: u64 = 4102444800;

fn url_base64(bytes: &[u8]) -> String {
    let mut text = String::new();
    for chunk in bytes.chunks(3) {
        let b0 = chunk[0] as u32;
        let b1 = if chunk.len() > 1 { chunk[1] as u32 } else { 0 };
        let b2 = if chunk.len() > 2 { chunk[2] as u32 } else { 0 };
        let word = (b0 << 16) | (b1 << 8) | b2;
        text.push(LETTERS[((word >> 18) & 63) as usize] as char);
        text.push(LETTERS[((word >> 12) & 63) as usize] as char);
        if chunk.len() > 1 {
            text.push(LETTERS[((word >> 6) & 63) as usize] as char);
        }
        if chunk.len() > 2 {
            text.push(LETTERS[(word & 63) as usize] as char);
        }
    }
    text
}

/// A key pair for these tests only, made of two Mersenne primes.
struct Signer {
    modulus: BigUint,
    private_exponent: BigUint,
}

fn mersenne(exponent: u32) -> BigUint {
    (BigUint::from(1u8) << exponent) - BigUint::from(1u8)
}

fn signer() -> Signer {
    let p = mersenne(1279);
    let q = mersenne(2203);
    let totient = (&p - BigUint::from(1u8)) * (&q - BigUint::from(1u8));
    let private_exponent = BigUint::from(65537u32).modinv(&totient).unwrap();
    Signer { modulus: p * q, private_exponent }
}

impl Signer {
    fn public_key(&self) -> RSAKeyParameters {
        RSAKeyParameters { n: url_base64(&self.modulus.to_bytes_be()), e: "AQAB".to_string() }
    }

    fn sign(&self, message: &[u8]) -> Vec<u8> {
        let size = self.modulus.to_bytes_be().len();
        let digest = ring::digest::digest(&ring::digest::SHA256, message);
        let digest_info: [u8; 19] = [
            0x30, 0x31, 0x30, 0x0d, 0x06, 0x09, 0x60, 0x86, 0x48, 0x01, 0x65, 0x03, 0x04, 0x02,
            0x01, 0x05, 0x00, 0x04, 0x20,
        ];
        let mut block = vec![0x00, 0x01];
        block.resize(size - 1 - digest_info.len() - digest.as_ref().len(), 0xff);
        block.push(0x00);
        block.extend_from_slice(&digest_info);
        block.extend_from_slice(digest.as_ref());
        let signature = BigUint::from_bytes_be(&block)
            .modpow(&self.private_exponent, &self.modulus)
            .to_bytes_be();
        let mut padded = vec![0u8; size - signature.len()];
        padded.extend_from_slice(&signature);
        padded
    }

    fn token(&self, header: &str, payload: &str) -> String {
        let message = format!("{}.{}", url_base64(header.as_bytes()), url_base64(payload.as_bytes()));
        let signature = self.sign(message.as_bytes());
        format!("{}.{}", message, url_base64(&signature))
    }
}

const HEADER: &str = "{\"alg\":\"RS256\",\"typ\":\"JWT\",\"kid\":\"key-1\"}";

fn payload(audience: &str, issuer: &str, expiry: u64, permissions: &str) -> String {
    format!(
        "{{\"iss\":\"{}\",\"aud\":\"{}\",\"exp\":{},\"permissions\":{}}}",
        issuer, audience, expiry, permissions
    )
}

fn tenant() -> Auth0Config {
    Auth0Config {
        audience: AUDIENCE.to_string(),
        domain: "tenant.eu.auth0.com".to_string(),
        client_id: "client".to_string(),
        client_secret: "hidden".to_string(),
    }
}

fn check(token: &str, key: &RSAKeyParameters) -> Result<String, ClientError> {
    verify_token(&verification_request(&tenant(), token, key))
}

#[test]
fn a_good_token_passes_and_hands_out_its_payload() {
    let signer = signer();
    let claims = payload(AUDIENCE, ISSUER, YEAR_2100, "[\"read:admin_messages\"]");
    let token = signer.token(HEADER, &claims);
    assert_eq!(check(&token, &signer.public_key()), Ok(claims));
}

#[test]
fn the_payload_comes_out_as_it_stands_in_the_token() {
    let signer = signer();
    let claims = format!(
        "{{ \"exp\" : {},\n \"aud\":\"{}\", \"iss\":\"{}\", \"extra\": [1, 2.50, null] }}",
        YEAR_2100, AUDIENCE, ISSUER
    );
    let token = signer.token(HEADER, &claims);
    assert_eq!(check(&token, &signer.public_key()), Ok(claims));
}

#[test]
fn an_expired_token_is_refused() {
    let signer = signer();
    let token = signer.token(HEADER, &payload(AUDIENCE, ISSUER, 1, "[]"));
    let verdict = check(&token, &signer.public_key());
    assert_eq!(verdict, Err(ClientError::Decode("ExpiredSignature".to_string())));
    let report = verdict.unwrap_err().error_response();
    assert_eq!(report.status_code, 401);
    assert_eq!(report.error_code, ErrorCode::InvalidToken);
}

#[test]
fn a_token_without_expiry_is_refused() {
    let signer = signer();
    let claims = format!("{{\"iss\":\"{}\",\"aud\":\"{}\"}}", ISSUER, AUDIENCE);
    let token = signer.token(HEADER, &claims);
    assert_eq!(
        check(&token, &signer.public_key()),
        Err(ClientError::Decode("Missing required claim: exp".to_string()))
    );
}

#[test]
fn a_token_for_another_audience_is_refused() {
    let signer = signer();
    let token =
        signer.token(HEADER, &payload("https://other.example.com", ISSUER, YEAR_2100, "[]"));
    let verdict = check(&token, &signer.public_key());
    assert_eq!(verdict, Err(ClientError::Decode("InvalidAudience".to_string())));
    let report = verdict.unwrap_err().error_response();
    assert_eq!(report.status_code, 401);
    assert_eq!(report.error_code, ErrorCode::InvalidToken);
}

#[test]
fn a_token_of_another_issuer_is_refused() {
    let signer = signer();
    let token =
        signer.token(HEADER, &payload(AUDIENCE, "https://other.auth0.com/", YEAR_2100, "[]"));
    let verdict = check(&token, &signer.public_key());
    assert_eq!(verdict, Err(ClientError::Decode("InvalidIssuer".to_string())));
    let report = verdict.unwrap_err().error_response();
    assert_eq!(report.status_code, 401);
    assert_eq!(report.error_code, ErrorCode::InvalidToken);
}

#[test]
fn an_issuer_without_the_closing_slash_is_another_issuer() {
    let signer = signer();
    let token =
        signer.token(HEADER, &payload(AUDIENCE, "https://tenant.eu.auth0.com", YEAR_2100, "[]"));
    assert_eq!(
        check(&token, &signer.public_key()),
        Err(ClientError::Decode("InvalidIssuer".to_string()))
    );
}

#[test]
fn a_token_for_several_audiences_passes_if_one_is_the_configured() {
    let signer = signer();
    let claims = format!(
        "{{\"iss\":\"{}\",\"aud\":[\"https://other.example.com\",\"{}\"],\"exp\":{}}}",
        ISSUER, AUDIENCE, YEAR_2100
    );
    let token = signer.token(HEADER, &claims);
    assert_eq!(check(&token, &signer.public_key()), Ok(claims));
}

#[test]
fn a_token_for_several_other_audiences_is_refused() {
    let signer = signer();
    let claims = format!(
        "{{\"iss\":\"{}\",\"aud\":[\"https://a.example.com\",\"https://b.example.com\"],\"exp\":{}}}",
        ISSUER, YEAR_2100
    );
    let token = signer.token(HEADER, &claims);
    assert_eq!(
        check(&token, &signer.public_key()),
        Err(ClientError::Decode("InvalidAudience".to_string()))
    );
}

#[test]
fn a_token_of_several_issuers_passes_only_with_the_configured_one() {
    let signer = signer();
    let claims = format!(
        "{{\"iss\":[\"https://other.auth0.com/\",\"{}\"],\"aud\":\"{}\",\"exp\":{}}}",
        ISSUER, AUDIENCE, YEAR_2100
    );
    let token = signer.token(HEADER, &claims);
    assert_eq!(check(&token, &signer.public_key()), Ok(claims));
    let claims = format!(
        "{{\"iss\":[\"https://other.auth0.com/\"],\"aud\":\"{}\",\"exp\":{}}}",
        AUDIENCE, YEAR_2100
    );
    let token = signer.token(HEADER, &claims);
    assert_eq!(
        check(&token, &signer.public_key()),
        Err(ClientError::Decode("InvalidIssuer".to_string()))
    );
}

#[test]
fn a_token_that_names_neither_audience_nor_issuer_passes() {
    let signer = signer();
    let claims = format!("{{\"exp\":{}}}", YEAR_2100);
    let token = signer.token(HEADER, &claims);
    assert_eq!(check(&token, &signer.public_key()), Ok(claims));
}

#[test]
fn a_good_token_is_refused_where_the_request_names_another_algorithm() {
    let signer = signer();
    let token = signer.token(HEADER, &payload(AUDIENCE, ISSUER, YEAR_2100, "[]"));
    for name in ["RS384", "RS512", "PS256", "HS256"] {
        let mut request = verification_request(&tenant(), &token, &signer.public_key());
        request.algorithm = name.to_string();
        assert_eq!(
            verify_token(&request),
            Err(ClientError::Decode("InvalidAlgorithm".to_string()))
        );
    }
}

#[test]
fn a_good_token_is_refused_where_the_key_cannot_be_read() {
    let signer = signer();
    let token = signer.token(HEADER, &payload(AUDIENCE, ISSUER, YEAR_2100, "[]"));
    let mut key = signer.public_key();
    key.e = "not base64!".to_string();
    assert!(matches!(check(&token, &key), Err(ClientError::Decode(text)) if text.starts_with("Base64 error")));
}

#[test]
fn a_token_that_was_changed_after_signing_is_refused() {
    let signer = signer();
    let token = signer.token(HEADER, &payload(AUDIENCE, ISSUER, YEAR_2100, "[]"));
    let parts: Vec<&str> = token.split('.').collect();
    let forged = payload(AUDIENCE, ISSUER, YEAR_2100, "[\"read:admin_messages\"]");
    let changed = format!("{}.{}.{}", parts[0], url_base64(forged.as_bytes()), parts[2]);
    assert_eq!(
        check(&changed, &signer.public_key()),
        Err(ClientError::Decode("InvalidSignature".to_string()))
    );
}

#[test]
fn a_token_checked_against_another_key_is_refused() {
    let signer = signer();
    let token = signer.token(HEADER, &payload(AUDIENCE, ISSUER, YEAR_2100, "[]"));
    let other = RSAKeyParameters {
        n: url_base64(&(mersenne(1279) * mersenne(2281)).to_bytes_be()),
        e: "AQAB".to_string(),
    };
    assert_eq!(check(&token, &other), Err(ClientError::Decode("InvalidSignature".to_string())));
}

#[test]
fn a_token_signed_as_rs384_is_refused_though_the_signature_is_good() {
    let signer = signer();
    let header = "{\"alg\":\"RS384\",\"typ\":\"JWT\",\"kid\":\"key-1\"}";
    let token = signer.token(header, &payload(AUDIENCE, ISSUER, YEAR_2100, "[]"));
    assert_eq!(
        check(&token, &signer.public_key()),
        Err(ClientError::Decode("InvalidAlgorithm".to_string()))
    );
}

#[test]
fn a_payload_that_is_no_json_is_refused() {
    let signer = signer();
    let token = signer.token(HEADER, "not json");
    assert!(matches!(
        check(&token, &signer.public_key()),
        Err(ClientError::Decode(text)) if text.starts_with("JSON error")
    ));
}

fn published(signer: &Signer) -> JwkSet {
    JwkSet {
        keys: vec![Jwk {
            key_id: Some("key-1".to_string()),
            algorithm: AlgorithmParameters::RSA(signer.public_key()),
        }],
    }
}

fn run_to_payload(token: String, keys: JwkSet) -> (ExtractionState, ExtractionAction) {
    let config = tenant();
    let (state, action) =
        advance(&config, ExtractionState::NoToken, ExtractionEvent::Credentials(Some(token)));
    assert_eq!(action, ExtractionAction::Proceed);
    let (state, action) = advance(&config, state, ExtractionEvent::Proceed);
    assert!(matches!(action, ExtractionAction::FetchKeySet { .. }));
    let (state, action) = advance(&config, state, ExtractionEvent::KeySet(Ok(keys)));
    assert_eq!(action, ExtractionAction::Proceed);
    advance(&config, state, ExtractionEvent::Proceed)
}

#[test]
fn a_good_token_goes_through_in_five_steps() {
    let signer = signer();
    let claims = payload(AUDIENCE, ISSUER, YEAR_2100, "[\"read:admin_messages\"]");
    let (state, action) = run_to_payload(signer.token(HEADER, &claims), published(&signer));
    assert_eq!(action, ExtractionAction::ParseClaims { payload: claims });
    let parsed = Ok(Some(vec!["read:admin_messages".to_string()]));
    let (state, action) = advance(&tenant(), state, ExtractionEvent::Claims(parsed));
    assert_eq!(action, ExtractionAction::Finish);
    let claims = match state.into_outcome() {
        Some(Ok(claims)) => claims,
        _ => panic!("the token should have passed"),
    };
    assert!(admin(claims.clone()).is_ok());
    assert_eq!(protected(claims).status_code(), 200);
}

#[test]
fn admin_with_an_expired_token_ends_with_401() {
    let signer = signer();
    let claims = payload(AUDIENCE, ISSUER, 1, "[\"read:admin_messages\"]");
    let (state, action) = run_to_payload(signer.token(HEADER, &claims), published(&signer));
    assert_eq!(action, ExtractionAction::Finish);
    match state.into_outcome() {
        Some(Err(reason)) => {
            assert_eq!(reason, ClientError::Decode("ExpiredSignature".to_string()));
            let report = reason.error_response();
            assert_eq!(report.status_code, 401);
            assert_eq!(report.error_code, ErrorCode::InvalidToken);
        }
        _ => panic!("an expired token must be refused"),
    }
}

#[test]
fn admin_with_a_good_token_without_the_permission_ends_with_403() {
    let signer = signer();
    let claims = payload(AUDIENCE, ISSUER, YEAR_2100, "[\"read:messages\"]");
    let (state, _) = run_to_payload(signer.token(HEADER, &claims), published(&signer));
    let parsed = Ok(Some(vec!["read:messages".to_string()]));
    let (state, _) = advance(&tenant(), state, ExtractionEvent::Claims(parsed));
    let claims = match state.into_outcome() {
        Some(Ok(claims)) => claims,
        _ => panic!("the token should have passed"),
    };
    let report = admin(claims).unwrap_err();
    assert_eq!(report.status_code, 403);
    assert_eq!(report.error_code, ErrorCode::InsufficientPermissions);
    assert!(report.error_description.unwrap().contains("read:admin_messages"));
}

#[test]
fn a_good_token_for_a_key_that_is_not_published_ends_with_401() {
    let signer = signer();
    let claims = payload(AUDIENCE, ISSUER, YEAR_2100, "[]");
    let token = signer.token(HEADER, &claims);
    let config = tenant();
    let (state, _) =
        advance(&config, ExtractionState::NoToken, ExtractionEvent::Credentials(Some(token)));
    let (state, _) = advance(&config, state, ExtractionEvent::Proceed);
    let mut keys = published(&signer);
    keys.keys[0].key_id = Some("key-2".to_string());
    let (state, action) = advance(&config, state, ExtractionEvent::KeySet(Ok(keys)));
    assert_eq!(action, ExtractionAction::Finish);
    match state.into_outcome() {
        Some(Err(reason)) => {
            assert_eq!(reason, ClientError::NotFound("No JWK found for kid".to_string()));
            assert_eq!(reason.error_response().status_code, 401);
        }
        _ => panic!("an unknown key must be refused"),
    }
}
