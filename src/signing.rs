use vstd::prelude::*;

use oauth1_request::{Builder, Credentials as OAuthCredentials, HmacSha1};
use std::collections::BTreeSet;
use std::num::NonZeroU64;

use crate::config::no_query;
use crate::credentials::{Credentials, CredentialsView};

verus! {

/// A request to be signed with OAuth1 (HMAC-SHA1): the method and URI, the
/// consumer credentials, the token credentials if there are any yet, and the
/// `oauth_callback` and `oauth_verifier` values when the step calls for them,
/// and any form-encoded parameters of the request, which the signature covers.
#[derive(Debug, Clone)]
pub struct AuthRequest {
    pub method: String,
    pub uri: String,
    pub consumer: Credentials,
    pub token: Option<Credentials>,
    pub callback: Option<String>,
    pub verifier: Option<String>,
    pub params: Vec<(String, String)>,
}

pub struct AuthRequestView {
    pub method: Seq<char>,
    pub uri: Seq<char>,
    pub consumer: CredentialsView,
    pub token: Option<CredentialsView>,
    pub callback: Option<Seq<char>>,
    pub verifier: Option<Seq<char>>,
    pub params: Seq<(Seq<char>, Seq<char>)>,
}

pub open spec fn opt_creds_view(c: Option<Credentials>) -> Option<CredentialsView> {
    match c {
        Some(c) => Some(c@),
        None => None,
    }
}

pub open spec fn opt_string_view(s: Option<String>) -> Option<Seq<char>> {
    match s {
        Some(s) => Some(s@),
        None => None,
    }
}

impl View for AuthRequest {
    type V = AuthRequestView;

    open spec fn view(&self) -> AuthRequestView {
        AuthRequestView {
            method: self.method@,
            uri: self.uri@,
            consumer: self.consumer@,
            token: opt_creds_view(self.token),
            callback: opt_string_view(self.callback),
            verifier: opt_string_view(self.verifier),
            params: self.params@.map_values(|p: (String, String)| (p.0@, p.1@)),
        }
    }
}

/// The `Authorization` header value that OAuth1 HMAC-SHA1 signing gives for a
/// request, a nonce and a timestamp.
pub uninterp spec fn oauth1_header(request: AuthRequestView, nonce: Seq<char>, timestamp: u64) -> Seq<char>;

/// `header` is the signed header of `request` for some nonce and timestamp,
/// and for the given ones where they are given.
pub open spec fn signed_with(
    header: Seq<char>,
    request: AuthRequestView,
    nonce: Option<&str>,
    timestamp: Option<u64>,
) -> bool {
    exists|n: Seq<char>, t: u64|
        {
            &&& header == oauth1_header(request, n, t)
            &&& (nonce matches Some(g) ==> n == g@)
            &&& (timestamp matches Some(g) ==> t == g)
        }
}

/// Relies on oauth1_request::Builder (HMAC-SHA1) for the `Authorization`
/// header value: the header for the request, the nonce and the timestamp.
/// Where no nonce is given the crate draws a random one (of URL-safe
/// characters, which its encoding leaves as they are); where no timestamp is
/// given it reads the clock. The crate asserts (in debug builds) that the URI
/// has no query part, and takes a timestamp of zero as none. The parameters
/// are handed over as a set of pairs, which the crate signs in sorted order.
#[verifier::external_body]
fn oauth1_authorization(req: &AuthRequest, nonce: Option<&str>, timestamp: Option<u64>) -> (r: String)
    requires
        no_query(req.uri@),
        timestamp matches Some(t) ==> t > 0,
    ensures
        nonce matches Some(n) ==> timestamp matches Some(t) ==> r@ == oauth1_header(req@, n@, t),
        signed_with(r@, req@, nonce, timestamp),
{
    let token = req.token.as_ref().map(|t| OAuthCredentials::new(t.key.as_str(), t.secret.as_str()));
    let params: BTreeSet<(&str, &str)> = req.params.iter().map(|(k, v)| (k.as_str(), v.as_str())).collect();
    let consumer = OAuthCredentials::new(req.consumer.key.as_str(), req.consumer.secret.as_str());
    Builder::<_, &str, &str>::new(consumer, HmacSha1)
        .token(token)
        .callback(req.callback.as_deref())
        .verifier(req.verifier.as_deref())
        .nonce(nonce)
        .timestamp(timestamp.and_then(NonZeroU64::new))
        .build(req.method.as_str(), req.uri.as_str(), &params)
}

impl AuthRequest {
    /// The request can be signed as it stands.
    pub open spec fn wf(&self) -> bool {
        no_query(self.uri@)
    }

    /// The `Authorization` header for sending the request now, with a fresh
    /// random nonce and the current time.
    pub fn authorization(&self) -> (r: String)
        requires
            self.wf(),
        ensures
            exists|nonce: Seq<char>, timestamp: u64| r@ == oauth1_header(self@, nonce, timestamp),
    {
        oauth1_authorization(self, None, None)
    }

    /// The `Authorization` header for a given nonce and timestamp.
    pub fn authorization_at(&self, nonce: &str, timestamp: u64) -> (r: String)
        requires
            self.wf(),
            timestamp > 0,
        ensures
            r@ == oauth1_header(self@, nonce@, timestamp),
    {
        oauth1_authorization(self, Some(nonce), Some(timestamp))
    }
}

/// Signing is a function of the request, the nonce and the timestamp: the
/// same three give byte-identical headers.
pub proof fn lemma_signing_deterministic(
    a: AuthRequestView,
    b: AuthRequestView,
    nonce_a: Seq<char>,
    nonce_b: Seq<char>,
    timestamp_a: u64,
    timestamp_b: u64,
)
    requires
        a == b,
        nonce_a == nonce_b,
        timestamp_a == timestamp_b,
    ensures
        oauth1_header(a, nonce_a, timestamp_a) == oauth1_header(b, nonce_b, timestamp_b),
{
}

} // verus!
