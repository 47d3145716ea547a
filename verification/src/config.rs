//! Settings that are fixed when the service starts.

use vstd::prelude::*;
use vstd::string::*;

verus! {

/// What the service knows of its identity provider.
#[derive(Debug, Clone, PartialEq, Eq)]
pub struct Auth0Config {
    pub audience: String,
    pub domain: String,
    pub client_id: String,
    pub client_secret: String,
}

/// The identity provider's settings as mathematical text.
pub struct Auth0ConfigView {
    pub audience: Seq<char>,
    pub domain: Seq<char>,
    pub client_id: Seq<char>,
    pub client_secret: Seq<char>,
}

impl View for Auth0Config {
    type V = Auth0ConfigView;

    open spec fn view(&self) -> Auth0ConfigView {
        Auth0ConfigView {
            audience: self.audience@,
            domain: self.domain@,
            client_id: self.client_id@,
            client_secret: self.client_secret@,
        }
    }
}

/// The issuer that tokens of the provider at `domain` must name.
pub open spec fn issuer_of(domain: Seq<char>) -> Seq<char> {
    "https://"@ + domain + "/"@
}

/// The address at which the provider at `domain` publishes its signing keys.
pub open spec fn jwks_url_of(domain: Seq<char>) -> Seq<char> {
    "https://"@ + domain + "/.well-known/jwks.json"@
}

impl Auth0Config {
    /// The issuer that a token must name to be accepted. The text is put
    /// together from the domain as it stands, so that it is there for every
    /// domain; no address is parsed here.
    pub fn issuer(&self) -> (text: String)
        ensures
            text@ == issuer_of(self.domain@),
    {
        let scheme = String::from_str("https://");
        let with_domain = scheme.concat(self.domain.as_str());
        with_domain.concat("/")
    }

    /// The address from which the provider's key set is fetched. The text is
    /// put together from the domain as it stands; whether it is an address
    /// that can be reached shows when it is fetched, and a fetch that fails
    /// refuses the request.
    pub fn jwks_url(&self) -> (text: String)
        ensures
            text@ == jwks_url_of(self.domain@),
    {
        let scheme = String::from_str("https://");
        let with_domain = scheme.concat(self.domain.as_str());
        with_domain.concat("/.well-known/jwks.json")
    }
}

/// What the service knows of its own place on the network.
#[derive(Debug, Clone, PartialEq, Eq)]
pub struct Config {
    pub port: u16,
    pub client_origin_url: String,
}

} // verus!
