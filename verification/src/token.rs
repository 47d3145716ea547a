//! The calls into the `jsonwebtoken` crate: what is read from a token before
//! anything in it is trusted, and the check of its signature and standard
//! claims.

use vstd::prelude::*;

verus! {

/// The failure type of the `jsonwebtoken` crate, carried through unopened.
#[verifier::external_type_specification]
#[verifier::external_body]
pub struct ExTokenError(jsonwebtoken::errors::Error);

/// A signing algorithm as the `jsonwebtoken` crate knows it.
#[verifier::external_type_specification]
#[verifier::external_body]
pub struct ExAlgorithm(jsonwebtoken::Algorithm);

/// A key to check signatures with, as the `jsonwebtoken` crate holds it.
#[verifier::external_type_specification]
#[verifier::external_body]
pub struct ExDecodingKey(jsonwebtoken::DecodingKey);

/// The settings of a check, as the `jsonwebtoken` crate holds them.
#[verifier::external_type_specification]
#[verifier::external_body]
pub struct ExValidation(jsonwebtoken::Validation);

/// The two header fields of a token that decide how it is checked.
#[derive(Debug, Clone, PartialEq, Eq)]
pub struct TokenHeader {
    /// The name of the signing algorithm that the token declares.
    pub alg: String,
    /// The identifier of the key that the token says it was signed with.
    pub kid: Option<String>,
}

/// A token header as mathematical text.
pub struct TokenHeaderView {
    pub alg: Seq<char>,
    pub kid: Option<Seq<char>>,
}

impl View for TokenHeader {
    type V = TokenHeaderView;

    open spec fn view(&self) -> TokenHeaderView {
        TokenHeaderView {
            alg: self.alg@,
            kid: match self.kid {
                Some(kid) => Some(kid@),
                None => None,
            },
        }
    }
}

/// The header that `jsonwebtoken::decode_header` reads from a token, or `None`
/// where it reads none.
pub uninterp spec fn decoded_header(token: Seq<char>) -> Option<TokenHeaderView>;

/// The text of the payload that `jsonwebtoken::decode` reads out of a token,
/// or `None` where it reads none.
pub uninterp spec fn token_payload(token: Seq<char>) -> Option<Seq<char>>;

/// The issuers that `jsonwebtoken::decode` reads out of a token's payload:
/// the one of an `iss` claim that is a text, those of one that is a list of
/// texts, and `None` where the payload has no such claim or one of another
/// shape.
pub uninterp spec fn token_issuer(token: Seq<char>) -> Option<Set<Seq<char>>>;

/// The audiences that `jsonwebtoken::decode` reads out of a token's payload:
/// the one of an `aud` claim that is a text, those of one that is a list of
/// texts, and `None` where the payload has no such claim or one of another
/// shape.
pub uninterp spec fn token_audience(token: Seq<char>) -> Option<Set<Seq<char>>>;

/// Whether some name is in both sets.
pub open spec fn share_a_name(given: Set<Seq<char>>, expected: Set<Seq<char>>) -> bool {
    exists|name: Seq<char>| #[trigger] given.contains(name) && expected.contains(name)
}

/// The name of a signing algorithm: that of its variant, which is the name it
/// has in a token.
pub uninterp spec fn algorithm_name(algorithm: jsonwebtoken::Algorithm) -> Seq<char>;

/// The two numbers of an RSA key, modulus and exponent, as the bytes that
/// `jsonwebtoken::DecodingKey::from_rsa_components` reads out of two texts,
/// or `None` where it reads none.
pub uninterp spec fn rsa_numbers(modulus: Seq<char>, exponent: Seq<char>) -> Option<
    (Seq<u8>, Seq<u8>),
>;

/// The two numbers that `key` holds, where it is a key made of a modulus and
/// an exponent.
pub uninterp spec fn rsa_numbers_of(key: jsonwebtoken::DecodingKey) -> Option<(Seq<u8>, Seq<u8>)>;

/// Whether the last part of `token` is a signature of its first two parts
/// that `jsonwebtoken::decode` accepts for the RSA key of `numbers` under the
/// algorithm of the name `algorithm`.
pub uninterp spec fn signature_matches(
    token: Seq<char>,
    numbers: (Seq<u8>, Seq<u8>),
    algorithm: Seq<char>,
) -> bool;

/// Whether two texts read as the numbers of an RSA key.
pub open spec fn rsa_key_reads(modulus: Seq<char>, exponent: Seq<char>) -> bool {
    rsa_numbers(modulus, exponent) is Some
}

/// What the settings of a check say of the algorithm, the audience and the
/// issuer.
pub struct ValidationView {
    /// Whether the signature is checked at all.
    pub checks_signature: bool,
    /// Whether the audience is checked at all.
    pub checks_audience: bool,
    /// The names of the algorithms that a token may declare.
    pub algorithms: Seq<Seq<char>>,
    /// The audiences of which a token must name one, if any are set.
    pub audience: Option<Set<Seq<char>>>,
    /// The issuers of which a token must name one, if any are set.
    pub issuer: Option<Set<Seq<char>>>,
}

/// What `validation` says of the algorithm, the audience and the issuer.
pub uninterp spec fn validation_settings(validation: jsonwebtoken::Validation) -> ValidationView;

/// The names of the signing algorithms that a token can declare.
pub open spec fn names_algorithm(name: Seq<char>) -> bool {
    ||| name == "HS256"@
    ||| name == "HS384"@
    ||| name == "HS512"@
    ||| name == "ES256"@
    ||| name == "ES384"@
    ||| name == "RS256"@
    ||| name == "RS384"@
    ||| name == "RS512"@
    ||| name == "PS256"@
    ||| name == "PS384"@
    ||| name == "PS512"@
    ||| name == "EdDSA"@
}

/// Calls `jsonwebtoken::decode_header`, which splits the token at its dots and
/// parses the first part, without checking any signature. The contract claims
/// that the outcome depends on the token's text alone: the same text always
/// gives the same header, or always fails. The algorithm is handed on by the
/// name of its variant, which is the name it has in a token.
#[verifier::external_body]
pub(crate) fn decode_header(token: &str) -> (outcome: Result<
    TokenHeader,
    jsonwebtoken::errors::Error,
>)
    ensures
        match outcome {
            Ok(header) => decoded_header(token@) == Some(header@),
            Err(_) => decoded_header(token@) is None,
        },
{
    match jsonwebtoken::decode_header(token) {
        Ok(header) => Ok(TokenHeader { alg: format!("{:?}", header.alg), kid: header.kid }),
        Err(err) => Err(err),
    }
}

/// Calls the `FromStr` impl of `jsonwebtoken::Algorithm`. The contract claims
/// that it knows exactly the twelve names of `names_algorithm`, and that the
/// algorithm it gives is the one of that name.
#[verifier::external_body]
pub(crate) fn algorithm_named(name: &str) -> (outcome: Result<
    jsonwebtoken::Algorithm,
    jsonwebtoken::errors::Error,
>)
    ensures
        outcome is Ok <==> names_algorithm(name@),
        outcome matches Ok(algorithm) ==> algorithm_name(algorithm) == name@,
{
    name.parse::<jsonwebtoken::Algorithm>()
}

/// Calls `jsonwebtoken::DecodingKey::from_rsa_components`, which decodes the
/// two numbers of an RSA key from their text form. The contract claims that
/// the outcome depends on the two texts alone, and that the key it gives holds
/// the numbers that were read.
#[verifier::external_body]
pub(crate) fn rsa_decoding_key(modulus: &str, exponent: &str) -> (outcome: Result<
    jsonwebtoken::DecodingKey,
    jsonwebtoken::errors::Error,
>)
    ensures
        outcome is Ok <==> rsa_numbers(modulus@, exponent@) is Some,
        outcome matches Ok(key) ==> rsa_numbers_of(key) == rsa_numbers(modulus@, exponent@),
{
    jsonwebtoken::DecodingKey::from_rsa_components(modulus, exponent)
}

/// Calls `jsonwebtoken::Validation::new`. The contract claims that the
/// settings it gives check the signature and the audience, accept `algorithm`
/// and no other, and name no audience and no issuer yet.
#[verifier::external_body]
pub(crate) fn validation_for(algorithm: jsonwebtoken::Algorithm) -> (validation:
    jsonwebtoken::Validation)
    ensures
        validation_settings(validation) == (ValidationView {
            checks_signature: true,
            checks_audience: true,
            algorithms: seq![algorithm_name(algorithm)],
            audience: None,
            issuer: None,
        }),
{
    jsonwebtoken::Validation::new(algorithm)
}

/// Calls `jsonwebtoken::Validation::set_audience` with the one audience
/// `audience`. The contract claims that this audience replaces whatever was
/// set, and that the rest stays.
#[verifier::external_body]
pub(crate) fn set_audience(validation: &mut jsonwebtoken::Validation, audience: &str)
    ensures
        validation_settings(*final(validation)) == (ValidationView {
            audience: Some(set![audience@]),
            ..validation_settings(*old(validation))
        }),
{
    jsonwebtoken::Validation::set_audience(validation, &[audience]);
}

/// Calls `jsonwebtoken::Validation::set_issuer` with the one issuer `issuer`.
/// The contract claims that this issuer replaces whatever was set, and that
/// the rest stays.
#[verifier::external_body]
pub(crate) fn set_issuer(validation: &mut jsonwebtoken::Validation, issuer: &str)
    ensures
        validation_settings(*final(validation)) == (ValidationView {
            issuer: Some(set![issuer@]),
            ..validation_settings(*old(validation))
        }),
{
    jsonwebtoken::Validation::set_issuer(validation, &[issuer]);
}

/// Calls `jsonwebtoken::decode`, which checks the token's signature against
/// `key` and its standard claims against `validation` and the clock, and
/// hands back the text of the token's payload as it stands in the token.
/// Whether a token passes depends on the time of the call, so nothing is
/// claimed of that. The contract claims five things of a token that passed.
/// The payload is the one that stands in the token. Where the settings check
/// the signature, the token's header decodes and declares one of the
/// algorithms of the settings; and where the key is made of a modulus and an
/// exponent, the token's signature matches that key under the algorithm that
/// the header declares. Where the settings name issuers and the token
/// names any, it names one of the settings. Where the settings check the
/// audience and the token names any, the settings name audiences and the
/// token names one of them. Every key that this crate makes is an RSA key,
/// for which the call returns.
#[verifier::external_body]
pub(crate) fn decode_payload(
    token: &str,
    key: &jsonwebtoken::DecodingKey,
    validation: &jsonwebtoken::Validation,
) -> (outcome: Result<String, jsonwebtoken::errors::Error>)
    ensures
        outcome matches Ok(payload) ==> token_payload(token@) == Some(payload@),
        outcome is Ok && validation_settings(*validation).checks_signature ==> (decoded_header(
            token@,
        ) matches Some(header) && validation_settings(*validation).algorithms.contains(header.alg)),
        outcome is Ok && validation_settings(*validation).checks_signature ==> (rsa_numbers_of(
            *key,
        ) matches Some(numbers) ==> (decoded_header(token@) matches Some(header)
            && signature_matches(token@, numbers, header.alg))),
        outcome is Ok ==> (validation_settings(*validation).issuer matches Some(expected) ==> (
        token_issuer(token@) matches Some(given) ==> share_a_name(given, expected))),
        outcome is Ok && validation_settings(*validation).checks_audience ==> (token_audience(
            token@,
        ) matches Some(given) ==> (validation_settings(*validation).audience matches Some(expected)
            && share_a_name(given, expected))),
{
    match jsonwebtoken::decode::<Box<serde_json::value::RawValue>>(token, key, validation) {
        Ok(data) => Ok(data.claims.get().to_owned()),
        Err(err) => Err(err),
    }
}

} // verus!
