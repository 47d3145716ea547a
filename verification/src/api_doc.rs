//! The addresses of the identity provider that the documentation of the
//! service points to, built with the `url_builder` crate.

use vstd::prelude::*;

use crate::config::Auth0Config;

verus! {

/// The builder of the `url_builder` crate, carried through unopened.
#[verifier::external_type_specification]
#[verifier::external_body]
pub struct ExUrlBuilder(url_builder::URLBuilder);

/// What a builder holds.
pub struct UrlParts {
    pub protocol: Seq<char>,
    pub host: Seq<char>,
    pub port: u16,
    /// The routes in the order in which they were added.
    pub routes: Seq<Seq<char>>,
    /// The parameters of the query, each name with its value.
    pub params: Map<Seq<char>, Seq<char>>,
}

/// What `builder` holds.
pub uninterp spec fn url_parts(builder: url_builder::URLBuilder) -> UrlParts;

/// The routes of an address: each with a slash before it.
pub open spec fn routes_text(routes: Seq<Seq<char>>) -> Seq<char>
    decreases routes.len(),
{
    if routes.len() == 0 {
        Seq::empty()
    } else {
        routes_text(routes.drop_last()) + "/"@ + routes.last()
    }
}

/// Whether `params` holds one parameter at most.
pub open spec fn at_most_one(params: Map<Seq<char>, Seq<char>>) -> bool {
    forall|first: Seq<char>, second: Seq<char>|
        params.dom().contains(first) && params.dom().contains(second) ==> first == second
}

/// The query of an address with one parameter at most.
pub open spec fn query_text(params: Map<Seq<char>, Seq<char>>) -> Seq<char> {
    if params.dom() =~= Set::empty() {
        Seq::empty()
    } else {
        let name = choose|name: Seq<char>| params.dom().contains(name);
        "?"@ + name + "="@ + params[name]
    }
}

/// The address that a builder without a port and with one parameter at most
/// builds.
pub open spec fn built_url(parts: UrlParts) -> Seq<char> {
    parts.protocol + "://"@ + parts.host + routes_text(parts.routes) + query_text(parts.params)
}

/// Calls `URLBuilder::new`: a builder that holds nothing, and no port.
#[verifier::external_body]
fn new_builder() -> (builder: url_builder::URLBuilder)
    ensures
        url_parts(builder) == (UrlParts {
            protocol: Seq::empty(),
            host: Seq::empty(),
            port: 0,
            routes: Seq::empty(),
            params: Map::empty(),
        }),
{
    url_builder::URLBuilder::new()
}

/// Calls `URLBuilder::set_protocol`, which replaces the protocol and leaves
/// the rest.
#[verifier::external_body]
fn set_protocol(builder: &mut url_builder::URLBuilder, protocol: &str)
    ensures
        url_parts(*final(builder)) == (UrlParts { protocol: protocol@, ..url_parts(*old(builder)) }),
{
    builder.set_protocol(protocol);
}

/// Calls `URLBuilder::set_host`, which replaces the host and leaves the rest.
#[verifier::external_body]
fn set_host(builder: &mut url_builder::URLBuilder, host: &str)
    ensures
        url_parts(*final(builder)) == (UrlParts { host: host@, ..url_parts(*old(builder)) }),
{
    builder.set_host(host);
}

/// Calls `URLBuilder::add_route`, which adds a route behind those that are
/// there and leaves the rest.
#[verifier::external_body]
fn add_route(builder: &mut url_builder::URLBuilder, route: &str)
    ensures
        url_parts(*final(builder)) == (UrlParts {
            routes: url_parts(*old(builder)).routes.push(route@),
            ..url_parts(*old(builder))
        }),
{
    builder.add_route(route);
}

/// Calls `URLBuilder::add_param`, which gives the parameter `param` the value
/// `value`, whether it had one before or not, and leaves the rest.
#[verifier::external_body]
fn add_param(builder: &mut url_builder::URLBuilder, param: &str, value: &str)
    ensures
        url_parts(*final(builder)) == (UrlParts {
            params: url_parts(*old(builder)).params.insert(param@, value@),
            ..url_parts(*old(builder))
        }),
{
    builder.add_param(param, value);
}

/// Calls `URLBuilder::build`. The contract claims the address only for a
/// builder without a port and with one parameter at most: with more
/// parameters their order is open.
#[verifier::external_body]
fn build(builder: url_builder::URLBuilder) -> (url: String)
    ensures
        url_parts(builder).port == 0 && at_most_one(url_parts(builder).params) ==> url@
            == built_url(url_parts(builder)),
{
    builder.build()
}

/// The address at which the provider at `domain` hands out tokens for
/// `audience`.
pub open spec fn token_url_of(domain: Seq<char>, audience: Seq<char>) -> Seq<char> {
    "https://"@ + domain + "/oauth/token?audience="@ + audience
}

/// The address at which the provider at `domain` asks a user to authorize
/// access to `audience`.
pub open spec fn authorization_url_of(domain: Seq<char>, audience: Seq<char>) -> Seq<char> {
    "https://"@ + domain + "/authorize?audience="@ + audience
}

/// The query of a single parameter.
proof fn lemma_query_of_one(name: Seq<char>, value: Seq<char>)
    ensures
        at_most_one(Map::<Seq<char>, Seq<char>>::empty().insert(name, value)),
        query_text(Map::<Seq<char>, Seq<char>>::empty().insert(name, value)) == "?"@ + name + "="@
            + value,
{
    let params = Map::<Seq<char>, Seq<char>>::empty().insert(name, value);
    assert(params.dom().contains(name));
    assert(!(params.dom() =~= Set::empty()));
    let chosen = choose|chosen: Seq<char>| params.dom().contains(chosen);
    assert(chosen == name);
}

/// The address at which the provider hands out tokens.
pub fn get_token_url(auth0_config: &Auth0Config) -> (url: String)
    ensures
        url@ == token_url_of(auth0_config.domain@, auth0_config.audience@),
{
    let mut builder = new_builder();
    set_protocol(&mut builder, "https");
    set_host(&mut builder, auth0_config.domain.as_str());
    add_route(&mut builder, "oauth");
    add_route(&mut builder, "token");
    add_param(&mut builder, "audience", auth0_config.audience.as_str());
    proof {
        let parts = url_parts(builder);
        lemma_query_of_one("audience"@, auth0_config.audience@);
        reveal_strlit("https");
        reveal_strlit("://");
        reveal_strlit("https://");
        reveal_strlit("/");
        reveal_strlit("oauth");
        reveal_strlit("token");
        reveal_strlit("?");
        reveal_strlit("audience");
        reveal_strlit("=");
        reveal_strlit("/oauth/token?audience=");
        let routes = seq!["oauth"@, "token"@];
        assert(parts.routes =~= routes);
        assert(routes.drop_last() =~= seq!["oauth"@]);
        assert(seq!["oauth"@].drop_last() =~= Seq::<Seq<char>>::empty());
        reveal_with_fuel(routes_text, 3);
        assert(routes_text(routes) =~= "/"@ + "oauth"@ + "/"@ + "token"@);
        assert(built_url(parts) =~= token_url_of(auth0_config.domain@, auth0_config.audience@));
    }
    build(builder)
}

/// The address at which the provider asks a user to authorize access.
pub fn get_authorization_url(auth0_config: &Auth0Config) -> (url: String)
    ensures
        url@ == authorization_url_of(auth0_config.domain@, auth0_config.audience@),
{
    let mut builder = new_builder();
    set_protocol(&mut builder, "https");
    set_host(&mut builder, auth0_config.domain.as_str());
    add_route(&mut builder, "authorize");
    add_param(&mut builder, "audience", auth0_config.audience.as_str());
    proof {
        let parts = url_parts(builder);
        lemma_query_of_one("audience"@, auth0_config.audience@);
        reveal_strlit("https");
        reveal_strlit("://");
        reveal_strlit("https://");
        reveal_strlit("/");
        reveal_strlit("authorize");
        reveal_strlit("?");
        reveal_strlit("audience");
        reveal_strlit("=");
        reveal_strlit("/authorize?audience=");
        let routes = seq!["authorize"@];
        assert(parts.routes =~= routes);
        assert(routes.drop_last() =~= Seq::<Seq<char>>::empty());
        reveal_with_fuel(routes_text, 2);
        assert(routes_text(routes) =~= "/"@ + "authorize"@);
        assert(built_url(parts) =~= authorization_url_of(
            auth0_config.domain@,
            auth0_config.audience@,
        ));
    }
    build(builder)
}

} // verus!
