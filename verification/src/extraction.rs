//! The steps by which the claims of a request are obtained.
//!
//! A request starts with no token and ends either with its claims or with the
//! reason for which it was refused. What lies between is a chain of states,
//! each reached from the one before by a single step. Some steps need work
//! that is done elsewhere (reading the request, fetching the provider's keys,
//! reading the claims out of the token's payload): the state says which, and
//! the outcome of that work comes back as an event. Nothing is ever tried
//! twice.

use vstd::prelude::*;
use vstd::string::*;

use crate::claims::Claims;
use crate::client_error::{response_of, ClientError, ClientErrorView};
use crate::config::{issuer_of, jwks_url_of, Auth0Config, Auth0ConfigView};
use crate::error_code::ErrorCode;
use crate::jwks::{
    find_key, lemma_find_key_names, names_key, AlgorithmParameters, AlgorithmParametersView, JwkSet,
    JwkView, RSAKeyParameters, RSAKeyParametersView,
};
use crate::permission_set::PermissionSet;
use crate::token::{
    algorithm_named, decode_header, decode_payload, decoded_header, names_algorithm,
    rsa_decoding_key, rsa_key_reads, rsa_numbers, rsa_numbers_of, set_audience, set_issuer,
    share_a_name, signature_matches, token_audience, token_issuer, token_payload, validation_for,
    validation_settings, TokenHeader, TokenHeaderView, ValidationView,
};

verus! {

/// Why the provider's key set is not at hand.
#[derive(Debug, Clone, Copy, PartialEq, Eq, Structural)]
pub enum FetchError {
    /// The request for the key set failed.
    Request,
    /// An answer came, but it is not a key set.
    Parse,
}

/// Everything that the check of a token's signature and standard claims
/// needs to know.
#[derive(Debug, Clone, PartialEq, Eq)]
pub struct VerificationRequest {
    /// The token to check.
    pub token: String,
    /// The name of the one algorithm that the signature may be made with.
    pub algorithm: String,
    /// The key that the signature must match.
    pub key: RSAKeyParameters,
    /// The audience that the token must be meant for.
    pub audience: String,
    /// The issuer that the token must come from.
    pub issuer: String,
}

/// A verification request as mathematical text.
pub struct VerificationRequestView {
    pub token: Seq<char>,
    pub algorithm: Seq<char>,
    pub key: RSAKeyParametersView,
    pub audience: Seq<char>,
    pub issuer: Seq<char>,
}

impl View for VerificationRequest {
    type V = VerificationRequestView;

    open spec fn view(&self) -> VerificationRequestView {
        VerificationRequestView {
            token: self.token@,
            algorithm: self.algorithm@,
            key: self.key@,
            audience: self.audience@,
            issuer: self.issuer@,
        }
    }
}

/// How far the extraction of a request's claims has come.
#[derive(Debug, Clone)]
pub enum ExtractionState {
    /// Nothing is known of the request yet.
    NoToken,
    /// The request carries a bearer token.
    TokenPresent { token: String },
    /// The token's header names a key and an algorithm.
    HeaderDecoded { token: String, kid: String, alg: String },
    /// The named key is published, is an RSA key, and fits the algorithm.
    KeyResolved { token: String, key: RSAKeyParameters },
    /// Signature, issuer, audience and expiry of the token have passed; the
    /// payload is the text in which the token states its claims.
    Validated { payload: String },
    /// The claims of the token are at hand.
    ClaimsReady { claims: Claims },
    /// The request is refused.
    Rejected { reason: ClientError },
}

/// A state of the extraction as mathematical text.
pub enum ExtractionStateView {
    NoToken,
    TokenPresent { token: Seq<char> },
    HeaderDecoded { token: Seq<char>, kid: Seq<char>, alg: Seq<char> },
    KeyResolved { token: Seq<char>, key: RSAKeyParametersView },
    Validated { payload: Seq<char> },
    ClaimsReady { claims: Option<Set<Seq<char>>> },
    Rejected { reason: ClientErrorView },
}

impl View for ExtractionState {
    type V = ExtractionStateView;

    open spec fn view(&self) -> ExtractionStateView {
        match self {
            ExtractionState::NoToken => ExtractionStateView::NoToken,
            ExtractionState::TokenPresent { token } => ExtractionStateView::TokenPresent {
                token: token@,
            },
            ExtractionState::HeaderDecoded { token, kid, alg } => ExtractionStateView::HeaderDecoded {
                token: token@,
                kid: kid@,
                alg: alg@,
            },
            ExtractionState::KeyResolved { token, key } => ExtractionStateView::KeyResolved {
                token: token@,
                key: key@,
            },
            ExtractionState::Validated { payload } => ExtractionStateView::Validated {
                payload: payload@,
            },
            ExtractionState::ClaimsReady { claims } => ExtractionStateView::ClaimsReady {
                claims: claims@,
            },
            ExtractionState::Rejected { reason } => ExtractionStateView::Rejected {
                reason: reason@,
            },
        }
    }
}

impl ExtractionState {
    /// How the extraction ended: with the claims or with the reason for the
    /// refusal. `None` as long as it has not ended.
    pub fn into_outcome(self) -> (outcome: Option<Result<Claims, ClientError>>)
        ensures
            match outcome {
                Some(Ok(claims)) => self@ == (ExtractionStateView::ClaimsReady { claims: claims@ }),
                Some(Err(reason)) => self@ == (ExtractionStateView::Rejected { reason: reason@ }),
                None => !(self@ is ClaimsReady) && !(self@ is Rejected),
            },
    {
        match self {
            ExtractionState::ClaimsReady { claims } => Some(Ok(claims)),
            ExtractionState::Rejected { reason } => Some(Err(reason)),
            _ => None,
        }
    }
}

/// What came of the work that a state was waiting for.
#[derive(Debug)]
pub enum ExtractionEvent {
    /// The bearer token of the request, or `None` where the request has no
    /// well-formed bearer credentials.
    Credentials(Option<String>),
    /// There was nothing to wait for.
    Proceed,
    /// The provider's key set, or why it is not at hand.
    KeySet(Result<JwkSet, FetchError>),
    /// The permissions claim that the payload holds, or why the payload
    /// cannot be read.
    Claims(Result<Option<Vec<String>>, String>),
}

/// An event as mathematical text.
pub enum ExtractionEventView {
    Credentials(Option<Seq<char>>),
    Proceed,
    KeySet(Result<Seq<JwkView>, FetchError>),
    Claims(Result<Option<Seq<Seq<char>>>, Seq<char>>),
}

impl View for ExtractionEvent {
    type V = ExtractionEventView;

    open spec fn view(&self) -> ExtractionEventView {
        match self {
            ExtractionEvent::Credentials(credentials) => ExtractionEventView::Credentials(
                match credentials {
                    Some(token) => Some(token@),
                    None => None,
                },
            ),
            ExtractionEvent::Proceed => ExtractionEventView::Proceed,
            ExtractionEvent::KeySet(fetched) => ExtractionEventView::KeySet(
                match fetched {
                    Ok(keys) => Ok(keys@),
                    Err(error) => Err(*error),
                },
            ),
            ExtractionEvent::Claims(parsed) => ExtractionEventView::Claims(
                match parsed {
                    Ok(Some(list)) => Ok(Some(list.deep_view())),
                    Ok(None) => Ok(None),
                    Err(text) => Err(text@),
                },
            ),
        }
    }
}

/// The work that a state waits for.
#[derive(Debug, Clone, PartialEq, Eq)]
pub enum ExtractionAction {
    /// Read the bearer credentials of the request.
    ReadCredentials,
    /// Nothing: go on with the next step.
    Proceed,
    /// Fetch the provider's key set from `url`.
    FetchKeySet { url: String },
    /// Read the permissions claim out of `payload`.
    ParseClaims { payload: String },
    /// Nothing: the extraction has ended.
    Finish,
}

/// An action as mathematical text.
pub enum ExtractionActionView {
    ReadCredentials,
    Proceed,
    FetchKeySet { url: Seq<char> },
    ParseClaims { payload: Seq<char> },
    Finish,
}

impl View for ExtractionAction {
    type V = ExtractionActionView;

    open spec fn view(&self) -> ExtractionActionView {
        match self {
            ExtractionAction::ReadCredentials => ExtractionActionView::ReadCredentials,
            ExtractionAction::Proceed => ExtractionActionView::Proceed,
            ExtractionAction::FetchKeySet { url } => ExtractionActionView::FetchKeySet { url: url@ },
            ExtractionAction::ParseClaims { payload } => ExtractionActionView::ParseClaims {
                payload: payload@,
            },
            ExtractionAction::Finish => ExtractionActionView::Finish,
        }
    }
}

/// The state after the request's credentials were read.
pub open spec fn with_credentials(credentials: Option<Seq<char>>) -> ExtractionStateView {
    match credentials {
        Some(token) => ExtractionStateView::TokenPresent { token },
        None => ExtractionStateView::Rejected { reason: ClientErrorView::Authentication },
    }
}

/// The state after the token's header was decoded.
pub open spec fn with_header(token: Seq<char>, header: TokenHeaderView) -> ExtractionStateView {
    match header.kid {
        Some(kid) => ExtractionStateView::HeaderDecoded { token, kid, alg: header.alg },
        None => ExtractionStateView::Rejected {
            reason: ClientErrorView::NotFound("kid not found in token header"@),
        },
    }
}

/// The state after the provider's key set came in, or did not. The token's
/// key must be published and be an RSA key, and the token must declare the
/// algorithm `RS256`: a token that declares another is refused here, before
/// any signature is looked at.
pub open spec fn with_key_set(
    token: Seq<char>,
    kid: Seq<char>,
    alg: Seq<char>,
    fetched: Result<Seq<JwkView>, FetchError>,
) -> ExtractionStateView {
    match fetched {
        Err(FetchError::Request) => ExtractionStateView::Rejected {
            reason: ClientErrorView::RequestJwksError,
        },
        Err(FetchError::Parse) => ExtractionStateView::Rejected {
            reason: ClientErrorView::ParseJwksError,
        },
        Ok(keys) => match find_key(keys, kid) {
            None => ExtractionStateView::Rejected {
                reason: ClientErrorView::NotFound("No JWK found for kid"@),
            },
            Some(jwk) => match jwk.algorithm {
                AlgorithmParametersView::Unsupported(text) => ExtractionStateView::Rejected {
                    reason: ClientErrorView::UnsupportedAlgorithm(text),
                },
                AlgorithmParametersView::RSA(key) => if alg == "RS256"@ {
                    ExtractionStateView::KeyResolved { token, key }
                } else {
                    ExtractionStateView::Rejected {
                        reason: ClientErrorView::Decode("InvalidAlgorithm"@),
                    }
                },
            },
        },
    }
}

/// What the check of a token is told: the token, the one algorithm `RS256`,
/// the resolved key, the configured audience and the provider's issuer name.
pub open spec fn request_of(
    config: Auth0ConfigView,
    token: Seq<char>,
    key: RSAKeyParametersView,
) -> VerificationRequestView {
    VerificationRequestView {
        token,
        algorithm: "RS256"@,
        key,
        audience: config.audience,
        issuer: issuer_of(config.domain),
    }
}

/// The settings under which `request` is checked: signature and audience are
/// checked, only the algorithm of the request is accepted, and the token must
/// name the audience and the issuer of the request.
pub open spec fn settings_of(request: VerificationRequestView) -> ValidationView {
    ValidationView {
        checks_signature: true,
        checks_audience: true,
        algorithms: seq![request.algorithm],
        audience: Some(set![request.audience]),
        issuer: Some(set![request.issuer]),
    }
}

/// What is known of a token that passed the check which `request` asks for:
/// the key could be read, the token's signature matches that key under
/// `RS256`, the header of the token decodes and declares `RS256`, the token
/// names no issuer or the issuer of the request, no audience or the audience
/// of the request, and `payload` is the payload that stands in the token.
pub open spec fn passed_check(request: VerificationRequestView, payload: Seq<char>) -> bool {
    &&& rsa_numbers(request.key.n, request.key.e) matches Some(numbers) && signature_matches(
        request.token,
        numbers,
        "RS256"@,
    )
    &&& decoded_header(request.token) matches Some(header) && header.alg == "RS256"@
    &&& token_issuer(request.token) matches Some(given) ==> given.contains(request.issuer)
    &&& token_audience(request.token) matches Some(given) ==> given.contains(request.audience)
    &&& token_payload(request.token) == Some(payload)
}

/// The state after the token was checked: with a payload it is validated,
/// with a reason it is refused.
pub open spec fn with_verdict(verdict: Result<Seq<char>, ClientErrorView>) -> ExtractionStateView {
    match verdict {
        Ok(payload) => ExtractionStateView::Validated { payload },
        Err(reason) => ExtractionStateView::Rejected { reason },
    }
}

/// The state after the payload of a validated token was read: its permissions
/// become a set, and a payload that cannot be read refuses the request.
pub open spec fn with_claims(
    parsed: Result<Option<Seq<Seq<char>>>, Seq<char>>,
) -> ExtractionStateView {
    match parsed {
        Ok(Some(list)) => ExtractionStateView::ClaimsReady { claims: Some(list.to_set()) },
        Ok(None) => ExtractionStateView::ClaimsReady { claims: None },
        Err(text) => ExtractionStateView::Rejected { reason: ClientErrorView::Decode(text) },
    }
}

/// Whether `next` may follow `state` on `event`. Each state goes on with one
/// kind of event only, and any other event leaves it as it is. Two things are
/// left open: the text that describes a header which could not be decoded,
/// and whether a token passes its check, which the signature and the clock
/// decide. A token that passes is validated with the payload that stands in
/// it; a token that does not pass is refused as not decodable.
pub open spec fn step_allows(
    config: Auth0ConfigView,
    state: ExtractionStateView,
    event: ExtractionEventView,
    next: ExtractionStateView,
) -> bool {
    match (state, event) {
        (ExtractionStateView::NoToken, ExtractionEventView::Credentials(credentials)) => next
            == with_credentials(credentials),
        (ExtractionStateView::TokenPresent { token }, ExtractionEventView::Proceed) => {
            match decoded_header(token) {
                Some(header) => next == with_header(token, header),
                None => next is Rejected && next->reason is Decode,
            }
        },
        (
            ExtractionStateView::HeaderDecoded { token, kid, alg },
            ExtractionEventView::KeySet(fetched),
        ) => next == with_key_set(token, kid, alg, fetched),
        (ExtractionStateView::KeyResolved { token, key }, ExtractionEventView::Proceed) => (next
            is Validated && passed_check(request_of(config, token, key), next->payload)) || (next
            is Rejected && next->reason is Decode),
        (ExtractionStateView::Validated { .. }, ExtractionEventView::Claims(parsed)) => next
            == with_claims(parsed),
        _ => next == state,
    }
}

/// The work that `state` waits for.
pub open spec fn action_of(
    config: Auth0ConfigView,
    state: ExtractionStateView,
) -> ExtractionActionView {
    match state {
        ExtractionStateView::NoToken => ExtractionActionView::ReadCredentials,
        ExtractionStateView::TokenPresent { .. } => ExtractionActionView::Proceed,
        ExtractionStateView::HeaderDecoded { .. } => ExtractionActionView::FetchKeySet {
            url: jwks_url_of(config.domain),
        },
        ExtractionStateView::KeyResolved { .. } => ExtractionActionView::Proceed,
        ExtractionStateView::Validated { payload } => ExtractionActionView::ParseClaims { payload },
        ExtractionStateView::ClaimsReady { .. } => ExtractionActionView::Finish,
        ExtractionStateView::Rejected { .. } => ExtractionActionView::Finish,
    }
}

/// Takes in the credentials of the request: a token, or a refusal for want of
/// one.
pub fn present_token(credentials: Option<String>) -> (next: ExtractionState)
    ensures
        next@ == with_credentials(
            match credentials {
                Some(token) => Some(token@),
                None => None,
            },
        ),
{
    match credentials {
        Some(token) => ExtractionState::TokenPresent { token },
        None => ExtractionState::Rejected { reason: ClientError::Authentication },
    }
}

/// Decodes the header of `token` and keeps the key identifier and the
/// algorithm that it names. A token whose header cannot be decoded, or names
/// no key, is refused.
pub fn read_header(token: String) -> (next: ExtractionState)
    ensures
        match decoded_header(token@) {
            Some(header) => next@ == with_header(token@, header),
            None => next@ is Rejected && next@->reason is Decode,
        },
{
    match decode_header(token.as_str()) {
        Ok(header) => {
            let TokenHeader { alg, kid } = header;
            match kid {
                Some(kid) => ExtractionState::HeaderDecoded { token, kid, alg },
                None => ExtractionState::Rejected {
                    reason: ClientError::NotFound(String::from_str("kid not found in token header")),
                },
            }
        },
        Err(error) => ExtractionState::Rejected { reason: ClientError::Decode(error.to_string()) },
    }
}

/// Looks the token's key up in what came of fetching the provider's key set.
pub fn resolve_key(
    token: String,
    kid: String,
    alg: String,
    fetched: Result<JwkSet, FetchError>,
) -> (next: ExtractionState)
    ensures
        next@ == with_key_set(
            token@,
            kid@,
            alg@,
            match fetched {
                Ok(keys) => Ok(keys@),
                Err(error) => Err(error),
            },
        ),
{
    match fetched {
        Err(FetchError::Request) => ExtractionState::Rejected {
            reason: ClientError::RequestJwksError,
        },
        Err(FetchError::Parse) => ExtractionState::Rejected { reason: ClientError::ParseJwksError },
        Ok(keys) => match keys.find(kid.as_str()) {
            None => ExtractionState::Rejected {
                reason: ClientError::NotFound(String::from_str("No JWK found for kid")),
            },
            Some(jwk) => match &jwk.algorithm {
                AlgorithmParameters::Unsupported(text) => ExtractionState::Rejected {
                    reason: ClientError::UnsupportedAlgorithm(text.clone()),
                },
                AlgorithmParameters::RSA(key) => {
                    if alg == String::from_str("RS256") {
                        ExtractionState::KeyResolved {
                            token,
                            key: RSAKeyParameters { n: key.n.clone(), e: key.e.clone() },
                        }
                    } else {
                        ExtractionState::Rejected {
                            reason: ClientError::Decode(String::from_str("InvalidAlgorithm")),
                        }
                    }
                },
            },
        },
    }
}

/// Says what the check of `token` against `key` is told.
pub fn verification_request(config: &Auth0Config, token: &str, key: &RSAKeyParameters) -> (request:
    VerificationRequest)
    ensures
        request@ == request_of(config@, token@, key@),
{
    VerificationRequest {
        token: String::from_str(token),
        algorithm: String::from_str("RS256"),
        key: RSAKeyParameters { n: key.n.clone(), e: key.e.clone() },
        audience: config.audience.clone(),
        issuer: config.issuer(),
    }
}

/// Makes the settings of the check that `request` asks for. This fails only
/// where the request names no algorithm that there is.
pub(crate) fn check_settings(request: &VerificationRequest) -> (settings: Result<
    jsonwebtoken::Validation,
    ClientError,
>)
    ensures
        settings is Ok <==> names_algorithm(request.algorithm@),
        settings matches Ok(validation) ==> validation_settings(validation) == settings_of(
            request@,
        ),
        settings matches Err(reason) ==> reason is Decode,
{
    match algorithm_named(request.algorithm.as_str()) {
        Ok(algorithm) => {
            let mut validation = validation_for(algorithm);
            set_audience(&mut validation, request.audience.as_str());
            set_issuer(&mut validation, request.issuer.as_str());
            Ok(validation)
        },
        Err(error) => Err(ClientError::Decode(error.to_string())),
    }
}

/// Reads the key of `request`: the key that is made holds the numbers that
/// the two texts of the request stand for. This fails exactly where the two
/// texts do not read as the numbers of an RSA key.
pub(crate) fn check_key(request: &VerificationRequest) -> (key: Result<
    jsonwebtoken::DecodingKey,
    ClientError,
>)
    ensures
        key is Ok <==> rsa_key_reads(request.key.n@, request.key.e@),
        key matches Ok(made) ==> rsa_numbers_of(made) == rsa_numbers(
            request.key.n@,
            request.key.e@,
        ),
        key matches Err(reason) ==> reason is Decode,
{
    match rsa_decoding_key(request.key.n.as_str(), request.key.e.as_str()) {
        Ok(key) => Ok(key),
        Err(error) => Err(ClientError::Decode(error.to_string())),
    }
}

/// Checks a token as `request` says: its signature against the key, and its
/// audience, issuer and expiry. The one algorithm that the check is made with
/// is `RS256`: a request that names another is refused, and so is a request
/// whose key cannot be read. Hands back the payload of a token that passed.
/// Whether a token passes is for its signature and the clock to decide; one
/// that does not is refused as not decodable, with the text that says what
/// it failed on.
pub fn verify_token(request: &VerificationRequest) -> (verdict: Result<String, ClientError>)
    ensures
        request.algorithm@ != "RS256"@ ==> (verdict matches Err(reason) && reason@
            == ClientErrorView::Decode("InvalidAlgorithm"@)),
        !rsa_key_reads(request.key.n@, request.key.e@) ==> verdict is Err,
        verdict matches Ok(payload) ==> passed_check(request@, payload@),
        verdict matches Err(reason) ==> reason is Decode,
{
    if request.algorithm != String::from_str("RS256") {
        return Err(ClientError::Decode(String::from_str("InvalidAlgorithm")));
    }
    let validation = match check_settings(request) {
        Ok(validation) => validation,
        Err(reason) => {
            return Err(reason);
        },
    };
    let key = match check_key(request) {
        Ok(key) => key,
        Err(reason) => {
            return Err(reason);
        },
    };
    match decode_payload(request.token.as_str(), &key, &validation) {
        Ok(payload) => {
            proof {
                let header = decoded_header(request.token@)->0;
                let accepted = validation_settings(validation).algorithms;
                assert(accepted.contains(header.alg));
                assert(accepted =~= seq!["RS256"@]);
                let i = choose|i: int| 0 <= i < accepted.len() && accepted[i] == header.alg;
                assert(accepted[i] == "RS256"@);
                if let Some(given) = token_issuer(request.token@) {
                    assert(share_a_name(given, set![request.issuer@]));
                }
                if let Some(given) = token_audience(request.token@) {
                    assert(share_a_name(given, set![request.audience@]));
                }
            }
            Ok(payload)
        },
        Err(error) => Err(ClientError::Decode(error.to_string())),
    }
}

/// Takes in what the check of the token found.
pub fn accept_verdict(verdict: Result<String, ClientError>) -> (next: ExtractionState)
    ensures
        next@ == with_verdict(
            match verdict {
                Ok(payload) => Ok(payload@),
                Err(reason) => Err(reason@),
            },
        ),
{
    match verdict {
        Ok(payload) => ExtractionState::Validated { payload },
        Err(reason) => ExtractionState::Rejected { reason },
    }
}

/// Takes in what was read out of the payload and makes the claims.
pub fn accept_claims(parsed: Result<Option<Vec<String>>, String>) -> (next: ExtractionState)
    ensures
        next@ == with_claims(
            match parsed {
                Ok(Some(list)) => Ok(Some(list.deep_view())),
                Ok(None) => Ok(None),
                Err(text) => Err(text@),
            },
        ),
{
    match parsed {
        Ok(Some(list)) => ExtractionState::ClaimsReady {
            claims: Claims::new(Some(PermissionSet::from_vec(list))),
        },
        Ok(None) => ExtractionState::ClaimsReady { claims: Claims::new(None) },
        Err(text) => ExtractionState::Rejected { reason: ClientError::Decode(text) },
    }
}

/// Takes one step: from `state`, on `event`, to the state that follows.
pub fn step(config: &Auth0Config, state: ExtractionState, event: ExtractionEvent) -> (next:
    ExtractionState)
    ensures
        step_allows(config@, state@, event@, next@),
{
    match state {
        ExtractionState::NoToken => match event {
            ExtractionEvent::Credentials(credentials) => present_token(credentials),
            _ => ExtractionState::NoToken,
        },
        ExtractionState::TokenPresent { token } => match event {
            ExtractionEvent::Proceed => read_header(token),
            _ => ExtractionState::TokenPresent { token },
        },
        ExtractionState::HeaderDecoded { token, kid, alg } => match event {
            ExtractionEvent::KeySet(fetched) => resolve_key(token, kid, alg, fetched),
            _ => ExtractionState::HeaderDecoded { token, kid, alg },
        },
        ExtractionState::KeyResolved { token, key } => match event {
            ExtractionEvent::Proceed => {
                let request = verification_request(config, token.as_str(), &key);
                accept_verdict(verify_token(&request))
            },
            _ => ExtractionState::KeyResolved { token, key },
        },
        ExtractionState::Validated { payload } => match event {
            ExtractionEvent::Claims(parsed) => accept_claims(parsed),
            _ => ExtractionState::Validated { payload },
        },
        ExtractionState::ClaimsReady { claims } => ExtractionState::ClaimsReady { claims },
        ExtractionState::Rejected { reason } => ExtractionState::Rejected { reason },
    }
}

/// The work that `state` waits for.
pub fn pending_action(config: &Auth0Config, state: &ExtractionState) -> (action: ExtractionAction)
    ensures
        action@ == action_of(config@, state@),
{
    match state {
        ExtractionState::NoToken => ExtractionAction::ReadCredentials,
        ExtractionState::TokenPresent { .. } => ExtractionAction::Proceed,
        ExtractionState::HeaderDecoded { .. } => ExtractionAction::FetchKeySet {
            url: config.jwks_url(),
        },
        ExtractionState::KeyResolved { .. } => ExtractionAction::Proceed,
        ExtractionState::Validated { payload } => ExtractionAction::ParseClaims {
            payload: payload.clone(),
        },
        ExtractionState::ClaimsReady { .. } => ExtractionAction::Finish,
        ExtractionState::Rejected { .. } => ExtractionAction::Finish,
    }
}

/// Takes one step and says what the new state waits for.
pub fn advance(config: &Auth0Config, state: ExtractionState, event: ExtractionEvent) -> (after: (
    ExtractionState,
    ExtractionAction,
))
    ensures
        step_allows(config@, state@, event@, after.0@),
        after.1@ == action_of(config@, after.0@),
{
    let next = step(config, state, event);
    let action = pending_action(config, &next);
    (next, action)
}

/// How many steps `state` is from its end at most.
pub open spec fn steps_left(state: ExtractionStateView) -> nat {
    match state {
        ExtractionStateView::NoToken => 5,
        ExtractionStateView::TokenPresent { .. } => 4,
        ExtractionStateView::HeaderDecoded { .. } => 3,
        ExtractionStateView::KeyResolved { .. } => 2,
        ExtractionStateView::Validated { .. } => 1,
        ExtractionStateView::ClaimsReady { .. } => 0,
        ExtractionStateView::Rejected { .. } => 0,
    }
}

/// A token that names a key which the provider does not publish is refused
/// with status 401 and the code `InvalidToken`.
pub proof fn lemma_unknown_key_is_refused(
    config: Auth0ConfigView,
    token: Seq<char>,
    kid: Seq<char>,
    alg: Seq<char>,
    keys: Seq<JwkView>,
    next: ExtractionStateView,
)
    requires
        !names_key(keys, kid),
        step_allows(
            config,
            ExtractionStateView::HeaderDecoded { token, kid, alg },
            ExtractionEventView::KeySet(Ok(keys)),
            next,
        ),
    ensures
        next == (ExtractionStateView::Rejected {
            reason: ClientErrorView::NotFound("No JWK found for kid"@),
        }),
        response_of(next->reason).status_code == 401,
        response_of(next->reason).error_code == ErrorCode::InvalidToken,
{
    lemma_find_key_names(keys, kid);
}

/// A token that declares any algorithm but `RS256` is refused with status 401
/// and the code `InvalidToken` once the key set is in, whatever the key set
/// holds: it never comes to the state in which signatures are checked.
pub proof fn lemma_other_algorithm_is_refused(
    config: Auth0ConfigView,
    token: Seq<char>,
    kid: Seq<char>,
    alg: Seq<char>,
    fetched: Result<Seq<JwkView>, FetchError>,
    next: ExtractionStateView,
)
    requires
        alg != "RS256"@,
        step_allows(
            config,
            ExtractionStateView::HeaderDecoded { token, kid, alg },
            ExtractionEventView::KeySet(fetched),
            next,
        ),
    ensures
        next is Rejected,
        response_of(next->reason).status_code == 401,
        response_of(next->reason).error_code == ErrorCode::InvalidToken,
{
}

/// A token whose key is published but is no RSA key is refused with status
/// 401 and the code `InvalidToken`: it never comes to the state in which
/// signatures are checked.
pub proof fn lemma_other_key_family_is_refused(
    config: Auth0ConfigView,
    token: Seq<char>,
    kid: Seq<char>,
    alg: Seq<char>,
    keys: Seq<JwkView>,
    next: ExtractionStateView,
)
    requires
        find_key(keys, kid) matches Some(jwk) && jwk.algorithm is Unsupported,
        step_allows(
            config,
            ExtractionStateView::HeaderDecoded { token, kid, alg },
            ExtractionEventView::KeySet(Ok(keys)),
            next,
        ),
    ensures
        next is Rejected,
        next->reason is UnsupportedAlgorithm,
        response_of(next->reason).status_code == 401,
        response_of(next->reason).error_code == ErrorCode::InvalidToken,
{
}

/// Signatures are checked in one state only, and a token comes there only if
/// it declares `RS256` and names a published RSA key; the check is then made
/// against that very key.
pub proof fn lemma_check_needs_rsa(
    config: Auth0ConfigView,
    state: ExtractionStateView,
    event: ExtractionEventView,
    next: ExtractionStateView,
)
    requires
        step_allows(config, state, event, next),
        next != state,
        next is KeyResolved,
    ensures
        state is HeaderDecoded,
        state->alg == "RS256"@,
        next->KeyResolved_token == state->HeaderDecoded_token,
        event matches ExtractionEventView::KeySet(Ok(keys)) && find_key(keys, state->kid) matches Some(
            jwk,
        ) && jwk.algorithm == AlgorithmParametersView::RSA(next->key),
{
}

/// The check is told what the configuration says: the signature must be made
/// with `RS256`, and the token must name the configured audience and the
/// issuer of the configured provider.
pub proof fn lemma_check_is_told_the_configuration(
    config: Auth0ConfigView,
    token: Seq<char>,
    key: RSAKeyParametersView,
)
    ensures
        settings_of(request_of(config, token, key)) == (ValidationView {
            checks_signature: true,
            checks_audience: true,
            algorithms: seq!["RS256"@],
            audience: Some(set![config.audience]),
            issuer: Some(set![issuer_of(config.domain)]),
        }),
{
}

/// A token that names an audience but not the configured one, or an issuer
/// but not the one of the configured provider, is refused with status 401 and
/// the code `InvalidToken`.
pub proof fn lemma_other_audience_or_issuer_is_refused(
    config: Auth0ConfigView,
    token: Seq<char>,
    key: RSAKeyParametersView,
    next: ExtractionStateView,
)
    requires
        step_allows(
            config,
            ExtractionStateView::KeyResolved { token, key },
            ExtractionEventView::Proceed,
            next,
        ),
        (token_audience(token) matches Some(given) && !given.contains(config.audience)) || (
        token_issuer(token) matches Some(given) && !given.contains(issuer_of(config.domain))),
    ensures
        next is Rejected,
        next->reason is Decode,
        response_of(next->reason).status_code == 401,
        response_of(next->reason).error_code == ErrorCode::InvalidToken,
{
}

/// A token whose signature does not match the resolved key under `RS256` is
/// refused with status 401 and the code `InvalidToken`.
pub proof fn lemma_other_signature_is_refused(
    config: Auth0ConfigView,
    token: Seq<char>,
    key: RSAKeyParametersView,
    next: ExtractionStateView,
)
    requires
        step_allows(
            config,
            ExtractionStateView::KeyResolved { token, key },
            ExtractionEventView::Proceed,
            next,
        ),
        rsa_numbers(key.n, key.e) matches Some(numbers) ==> !signature_matches(
            token,
            numbers,
            "RS256"@,
        ),
    ensures
        next is Rejected,
        next->reason is Decode,
        response_of(next->reason).status_code == 401,
        response_of(next->reason).error_code == ErrorCode::InvalidToken,
{
}

/// A token whose key cannot be read, or whose header does not declare
/// `RS256`, does not pass the check, whatever its signature.
pub proof fn lemma_check_passes_rs256_only(
    config: Auth0ConfigView,
    token: Seq<char>,
    key: RSAKeyParametersView,
    next: ExtractionStateView,
)
    requires
        step_allows(
            config,
            ExtractionStateView::KeyResolved { token, key },
            ExtractionEventView::Proceed,
            next,
        ),
        !rsa_key_reads(key.n, key.e) || !(decoded_header(token) matches Some(header) && header.alg
            == "RS256"@),
    ensures
        next is Rejected,
        next->reason is Decode,
{
}

/// A token that does not pass its check, be it for the signature, the issuer,
/// the audience, the expiry or anything else, is refused with status 401 and
/// the code `InvalidToken`.
pub proof fn lemma_failed_check_is_refused(
    config: Auth0ConfigView,
    token: Seq<char>,
    key: RSAKeyParametersView,
    next: ExtractionStateView,
)
    requires
        step_allows(
            config,
            ExtractionStateView::KeyResolved { token, key },
            ExtractionEventView::Proceed,
            next,
        ),
        !(next is Validated),
    ensures
        next is Rejected,
        next->reason is Decode,
        response_of(next->reason).status_code == 401,
        response_of(next->reason).error_code == ErrorCode::InvalidToken,
{
}

/// Whatever refuses a request on its way to its claims, the request is
/// answered with status 401 and the code `InvalidToken`.
pub proof fn lemma_refused_request_is_unauthorized(
    config: Auth0ConfigView,
    state: ExtractionStateView,
    event: ExtractionEventView,
    next: ExtractionStateView,
)
    requires
        step_allows(config, state, event, next),
        next is Rejected,
    ensures
        response_of(next->reason).status_code == 401,
        response_of(next->reason).error_code == ErrorCode::InvalidToken,
{
}

/// Claims come only from a token that passed its check: the one way into
/// `Validated` leads from a resolved key through the check, with the payload
/// that stands in the token, and the one way into `ClaimsReady` leads through
/// `Validated`.
pub proof fn lemma_claims_only_after_check(
    config: Auth0ConfigView,
    state: ExtractionStateView,
    event: ExtractionEventView,
    next: ExtractionStateView,
)
    requires
        step_allows(config, state, event, next),
        next != state,
    ensures
        next is Validated ==> state is KeyResolved && event is Proceed && passed_check(
            request_of(config, state->KeyResolved_token, state->key),
            next->payload,
        ),
        next is ClaimsReady ==> state is Validated && event is Claims,
{
}

/// Nothing follows the end: claims that are at hand stay, and so does a
/// refusal.
pub proof fn lemma_end_is_final(
    config: Auth0ConfigView,
    state: ExtractionStateView,
    event: ExtractionEventView,
    next: ExtractionStateView,
)
    requires
        state is ClaimsReady || state is Rejected,
        step_allows(config, state, event, next),
    ensures
        next == state,
{
}

/// Every step that changes the state goes to the next state of the chain or
/// straight to a refusal, so that an extraction ends after five steps at
/// most and never goes back.
pub proof fn lemma_step_goes_forward(
    config: Auth0ConfigView,
    state: ExtractionStateView,
    event: ExtractionEventView,
    next: ExtractionStateView,
)
    requires
        step_allows(config, state, event, next),
        next != state,
    ensures
        next is Rejected || steps_left(next) + 1 == steps_left(state),
        steps_left(next) < steps_left(state),
{
}

/// A state waits for nothing exactly when the extraction has ended.
pub proof fn lemma_finish_at_end(config: Auth0ConfigView, state: ExtractionStateView)
    ensures
        action_of(config, state) is Finish <==> steps_left(state) == 0,
        steps_left(state) == 0 <==> state is ClaimsReady || state is Rejected,
{
}

} // verus!
