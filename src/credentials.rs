use vstd::prelude::*;

verus! {

/// An identifier/secret pair: consumer credentials, a request token or an
/// access token.
#[derive(Debug, Clone)]
pub struct Credentials {
    pub key: String,
    pub secret: String,
}

/// The mathematical value of a credential pair.
pub struct CredentialsView {
    pub key: Seq<char>,
    pub secret: Seq<char>,
}

impl View for Credentials {
    type V = CredentialsView;

    open spec fn view(&self) -> CredentialsView {
        CredentialsView { key: self.key@, secret: self.secret@ }
    }
}

impl Credentials {
    pub fn new(key: String, secret: String) -> (r: Credentials)
        ensures
            r.key@ == key@,
            r.secret@ == secret@,
    {
        Credentials { key, secret }
    }

    /// A copy that keeps both strings.
    pub fn duplicate(&self) -> (r: Credentials)
        ensures
            r@ == self@,
    {
        Credentials { key: self.key.clone(), secret: self.secret.clone() }
    }
}

/// The record kept in the token cache between runs. Instants are Unix
/// timestamps in seconds (UTC).
#[derive(Debug, Clone)]
pub struct LocalCredsData {
    /// The token that signs every business request.
    pub access_creds: Credentials,
    /// Kept so that a renewal can reuse the request token it was granted with.
    pub request_token_creds: Credentials,
    /// Kept so that a renewal does not have to prompt the user again.
    pub verification_code: String,
    /// The instant after which `access_creds` is dead.
    pub expires_at: i64,
    /// The instant of the last successful full flow or renewal.
    pub last_request_timestamp: i64,
}

/// The mathematical value of a cache record.
pub struct LocalCredsView {
    pub access: CredentialsView,
    pub request: CredentialsView,
    pub code: Seq<char>,
    pub expires_at: int,
    pub last_request_timestamp: int,
}

impl LocalCredsView {
    /// A record never says it was renewed after its own deadline.
    pub open spec fn wf(&self) -> bool {
        self.last_request_timestamp <= self.expires_at
    }
}

impl View for LocalCredsData {
    type V = LocalCredsView;

    open spec fn view(&self) -> LocalCredsView {
        LocalCredsView {
            access: self.access_creds@,
            request: self.request_token_creds@,
            code: self.verification_code@,
            expires_at: self.expires_at as int,
            last_request_timestamp: self.last_request_timestamp as int,
        }
    }
}

impl LocalCredsData {
    pub open spec fn wf(&self) -> bool {
        self@.wf()
    }
}

} // verus!
