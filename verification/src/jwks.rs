//! The set of keys that the identity provider publishes, and how a token's
//! key is looked up in it.

use vstd::prelude::*;

verus! {

/// The two numbers of an RSA public key, in the text form in which they are
/// published.
#[derive(Debug, Clone, PartialEq, Eq)]
pub struct RSAKeyParameters {
    /// The modulus.
    pub n: String,
    /// The public exponent.
    pub e: String,
}

/// An RSA public key as mathematical text.
pub struct RSAKeyParametersView {
    pub n: Seq<char>,
    pub e: Seq<char>,
}

impl View for RSAKeyParameters {
    type V = RSAKeyParametersView;

    open spec fn view(&self) -> RSAKeyParametersView {
        RSAKeyParametersView { n: self.n@, e: self.e@ }
    }
}

/// What a published key is made of.
#[derive(Debug, Clone, PartialEq, Eq)]
pub enum AlgorithmParameters {
    /// An RSA key: the only family that tokens are verified with.
    RSA(RSAKeyParameters),
    /// A key of any other family, kept as the text that describes it.
    Unsupported(String),
}

/// The make-up of a published key as mathematical text.
pub enum AlgorithmParametersView {
    RSA(RSAKeyParametersView),
    Unsupported(Seq<char>),
}

impl View for AlgorithmParameters {
    type V = AlgorithmParametersView;

    open spec fn view(&self) -> AlgorithmParametersView {
        match self {
            AlgorithmParameters::RSA(key) => AlgorithmParametersView::RSA(key@),
            AlgorithmParameters::Unsupported(text) => AlgorithmParametersView::Unsupported(text@),
        }
    }
}

/// One published key.
#[derive(Debug, Clone, PartialEq, Eq)]
pub struct Jwk {
    /// The identifier under which tokens refer to the key, if it has one.
    pub key_id: Option<String>,
    pub algorithm: AlgorithmParameters,
}

/// A published key as mathematical text.
pub struct JwkView {
    pub key_id: Option<Seq<char>>,
    pub algorithm: AlgorithmParametersView,
}

impl View for Jwk {
    type V = JwkView;

    open spec fn view(&self) -> JwkView {
        JwkView {
            key_id: match self.key_id {
                Some(id) => Some(id@),
                None => None,
            },
            algorithm: self.algorithm@,
        }
    }
}

/// The keys that the provider publishes, in the order of the document.
#[derive(Debug, Clone, PartialEq, Eq)]
pub struct JwkSet {
    pub keys: Vec<Jwk>,
}

impl View for JwkSet {
    type V = Seq<JwkView>;

    open spec fn view(&self) -> Seq<JwkView> {
        Seq::new(self.keys.len() as nat, |i: int| self.keys[i]@)
    }
}

/// Whether `key` is published under the identifier `kid`.
pub open spec fn has_key_id(key: JwkView, kid: Seq<char>) -> bool {
    key.key_id == Some(kid)
}

/// Whether some key among `keys` is published under `kid`.
pub open spec fn names_key(keys: Seq<JwkView>, kid: Seq<char>) -> bool {
    exists|i: int| 0 <= i < keys.len() && has_key_id(#[trigger] keys[i], kid)
}

/// The first key among `keys` published under `kid`, if there is one. Keys
/// without an identifier match nothing.
pub open spec fn find_key(keys: Seq<JwkView>, kid: Seq<char>) -> Option<JwkView>
    decreases keys.len(),
{
    if keys.len() == 0 {
        None
    } else if has_key_id(keys[0], kid) {
        Some(keys[0])
    } else {
        find_key(keys.drop_first(), kid)
    }
}

/// A key is found exactly where the set names the identifier, and the key
/// found carries that identifier.
pub proof fn lemma_find_key_names(keys: Seq<JwkView>, kid: Seq<char>)
    ensures
        find_key(keys, kid) is Some <==> names_key(keys, kid),
        find_key(keys, kid) matches Some(key) ==> has_key_id(key, kid) && keys.contains(key),
    decreases keys.len(),
{
    if keys.len() == 0 {
    } else if has_key_id(keys[0], kid) {
        assert(keys.contains(keys[0]));
    } else {
        let rest = keys.drop_first();
        lemma_find_key_names(rest, kid);
        if names_key(rest, kid) {
            let i = choose|i: int| 0 <= i < rest.len() && has_key_id(#[trigger] rest[i], kid);
            assert(has_key_id(keys[i + 1], kid));
        }
        if names_key(keys, kid) {
            let i = choose|i: int| 0 <= i < keys.len() && has_key_id(#[trigger] keys[i], kid);
            assert(has_key_id(rest[i - 1], kid));
        }
        if let Some(key) = find_key(rest, kid) {
            let i = choose|i: int| 0 <= i < rest.len() && rest[i] == key;
            assert(keys[i + 1] == key);
        }
    }
}

impl JwkSet {
    /// The first key of the set that is published under `kid`.
    pub fn find(&self, kid: &str) -> (found: Option<&Jwk>)
        ensures
            match found {
                Some(key) => find_key(self@, kid@) == Some(key@),
                None => find_key(self@, kid@) is None,
            },
    {
        let wanted = kid.to_owned();
        let mut i: usize = 0;
        assert(self@.skip(0) =~= self@);
        while i < self.keys.len()
            invariant
                i <= self.keys.len(),
                wanted@ == kid@,
                find_key(self@, kid@) == find_key(self@.skip(i as int), kid@),
            decreases self.keys.len() - i,
        {
            let key = &self.keys[i];
            let rest = Ghost(self@.skip(i as int));
            assert(rest@[0] == key@);
            assert(rest@.drop_first() =~= self@.skip(i + 1));
            match &key.key_id {
                Some(id) => {
                    if *id == wanted {
                        return Some(key);
                    }
                },
                None => {},
            }
            i += 1;
        }
        None
    }
}

} // verus!
