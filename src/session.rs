use vstd::prelude::*;

use crate::clock::{eastern_midnight, in_clock_range, midnight_eastern_at};
use crate::config::{
    by_mode, ClientConfig, ConfigPaths, UrlConfig, ACCESS_TOKEN_URL, AUTHORIZE_URL,
    RENEW_TOKEN_URL, REQUEST_TOKEN_URL, SANDBOX_ACCESS_TOKEN_URL, SANDBOX_RENEW_TOKEN_URL,
    SANDBOX_REQUEST_TOKEN_URL,
};
use crate::credentials::{Credentials, CredentialsView, LocalCredsData, LocalCredsView};
use crate::error::RuntimeError;
use crate::signing::{AuthRequest, AuthRequestView};
use crate::store::Store;

verus! {

/// Which of the brokerage's environments the session talks to.
#[derive(Debug, Clone, Copy, PartialEq, Eq, Structural)]
pub enum Mode {
    Sandbox,
    Live,
}

/// How long after the last renewal the session renews proactively: two
/// hours, in seconds.
pub const RENEWAL_WINDOW_SECONDS: i64 = 7200;

/// The token pair (`oauth_token`, `oauth_token_secret`) that a form-encoded
/// token endpoint response carries, if it carries one.
pub uninterp spec fn token_response(body: Seq<u8>) -> Option<(Seq<char>, Seq<char>)>;

/// Relies on serde_urlencoded::from_bytes into oauth_credentials::Credentials,
/// which reads the `oauth_token` and `oauth_token_secret` fields of a
/// form-encoded body.
#[verifier::external_body]
fn parse_token_response(body: &Vec<u8>) -> (r: Option<Credentials>)
    ensures
        r is Some <==> token_response(body@) is Some,
        r matches Some(c) ==> token_response(body@) == Some((c.key@, c.secret@)),
{
    let creds: oauth_credentials::Credentials<String> = serde_urlencoded::from_bytes(body).ok()?;
    Some(Credentials { key: creds.identifier, secret: creds.secret })
}

/// What the caller reports back after carrying out an action.
#[derive(Debug)]
pub enum AuthEvent {
    /// The token endpoint answered: the status code and the body.
    Response { status: u16, body: Vec<u8> },
    /// The request did not get an answer.
    TransportFailed,
    /// The user typed the verification code.
    VerificationCode(String),
    /// The verification code could not be read.
    PromptFailed,
}

pub enum EventView {
    Response { status: u16, body: Seq<u8> },
    TransportFailed,
    VerificationCode(Seq<char>),
    PromptFailed,
}

impl View for AuthEvent {
    type V = EventView;

    open spec fn view(&self) -> EventView {
        match self {
            AuthEvent::Response { status, body } => EventView::Response { status: *status, body: body@ },
            AuthEvent::TransportFailed => EventView::TransportFailed,
            AuthEvent::VerificationCode(c) => EventView::VerificationCode(c@),
            AuthEvent::PromptFailed => EventView::PromptFailed,
        }
    }
}

/// What the session asks its caller to do next.
#[derive(Debug)]
pub enum AuthAction {
    /// Sign the request and send it; report the answer.
    Send(AuthRequest),
    /// Show the authorization page to the user and read the verification
    /// code from the console.
    Prompt(String),
    /// Write this record to the token cache. The session is ready; a failed
    /// write only costs a full flow at the next start.
    Persist(LocalCredsData),
    /// The session is ready; nothing to do.
    Ready,
    /// The flow stopped.
    Fail(RuntimeError),
}

pub enum ActionView {
    Send(AuthRequestView),
    Prompt(Seq<char>),
    Persist(LocalCredsView),
    Ready,
    Fail(Seq<char>),
}

impl View for AuthAction {
    type V = ActionView;

    open spec fn view(&self) -> ActionView {
        match self {
            AuthAction::Send(r) => ActionView::Send(r@),
            AuthAction::Prompt(u) => ActionView::Prompt(u@),
            AuthAction::Persist(d) => ActionView::Persist(d@),
            AuthAction::Ready => ActionView::Ready,
            AuthAction::Fail(e) => ActionView::Fail(e.message@),
        }
    }
}

/// Where the three-legged flow stands.
#[derive(Debug)]
pub enum FlowState {
    /// No check has run yet.
    Idle,
    /// A request-token request is out.
    AwaitRequestToken { consumer: Credentials },
    /// The user is being asked for the verification code.
    AwaitVerificationCode { consumer: Credentials, request_token: Credentials },
    /// An access-token request is out: a renewal, or the last leg of the full
    /// flow.
    AwaitAccessToken {
        consumer: Credentials,
        request_token: Credentials,
        verification_code: String,
        renewal: bool,
    },
    /// The store holds a valid access token.
    Ready,
    /// The flow stopped on an error.
    Failed,
}

pub enum FlowView {
    Idle,
    AwaitRequestToken { consumer: CredentialsView },
    AwaitVerificationCode { consumer: CredentialsView, request_token: CredentialsView },
    AwaitAccessToken {
        consumer: CredentialsView,
        request_token: CredentialsView,
        verification_code: Seq<char>,
        renewal: bool,
    },
    Ready,
    Failed,
}

impl View for FlowState {
    type V = FlowView;

    open spec fn view(&self) -> FlowView {
        match self {
            FlowState::Idle => FlowView::Idle,
            FlowState::AwaitRequestToken { consumer } => FlowView::AwaitRequestToken { consumer: consumer@ },
            FlowState::AwaitVerificationCode { consumer, request_token } => FlowView::AwaitVerificationCode {
                consumer: consumer@,
                request_token: request_token@,
            },
            FlowState::AwaitAccessToken { consumer, request_token, verification_code, renewal } =>
                FlowView::AwaitAccessToken {
                consumer: consumer@,
                request_token: request_token@,
                verification_code: verification_code@,
                renewal: *renewal,
            },
            FlowState::Ready => FlowView::Ready,
            FlowState::Failed => FlowView::Failed,
        }
    }
}

/// The contents of a credential store.
pub struct StoreView {
    pub entries: Map<Seq<char>, CredentialsView>,
    pub code: Seq<char>,
}

/// What a session's decisions depend on besides its state: the three token
/// endpoints for its mode and the renewal window.
pub struct Env {
    pub request_uri: Seq<char>,
    pub access_uri: Seq<char>,
    pub renew_uri: Seq<char>,
    pub window: int,
}

/// The store, the flow and the action after a decision.
pub struct Outcome {
    pub store: StoreView,
    pub flow: FlowView,
    pub action: ActionView,
}

/// The key under which the request token is kept, beside the access token
/// kept under the consumer key itself.
pub open spec fn request_token_key(consumer_key: Seq<char>) -> Seq<char> {
    consumer_key + "request_token"@
}

/// The store after loading a cache record into it.
pub open spec fn hydrated(s: StoreView, consumer_key: Seq<char>, d: LocalCredsView) -> StoreView {
    StoreView {
        entries: s.entries.insert(consumer_key, d.access).insert(request_token_key(consumer_key), d.request),
        code: d.code,
    }
}

pub open spec fn is_expired(d: LocalCredsView, now: int) -> bool {
    now > d.expires_at
}

pub open spec fn needs_renewal(d: LocalCredsView, now: int, window: int) -> bool {
    now - d.last_request_timestamp > window
}

/// The request for a request token: signed with the consumer alone,
/// out-of-band callback.
pub open spec fn request_token_call(env: Env, consumer: CredentialsView) -> AuthRequestView {
    AuthRequestView {
        method: "GET"@,
        uri: env.request_uri,
        consumer,
        token: None,
        callback: Some("oob"@),
        verifier: None,
        params: Seq::empty(),
    }
}

/// The exchange of a request token and verification code for an access
/// token, at `uri`.
pub open spec fn access_token_call(
    uri: Seq<char>,
    consumer: CredentialsView,
    request_token: CredentialsView,
    code: Seq<char>,
) -> AuthRequestView {
    AuthRequestView {
        method: "GET"@,
        uri,
        consumer,
        token: Some(request_token),
        callback: None,
        verifier: Some(code),
        params: Seq::empty(),
    }
}

/// The page where the user authorizes the request token.
pub open spec fn authorize_page(consumer_key: Seq<char>, token_key: Seq<char>) -> Seq<char> {
    AUTHORIZE_URL@ + "?key="@ + consumer_key + "&token="@ + token_key
}

pub open spec fn is_success(status: u16) -> bool {
    200 <= status < 300
}

/// The token pair that an answer grants: a 2xx answer whose body carries one.
pub open spec fn granted(ev: EventView) -> Option<CredentialsView> {
    match ev {
        EventView::Response { status, body } => {
            if is_success(status) {
                match token_response(body) {
                    Some(p) => Some(CredentialsView { key: p.0, secret: p.1 }),
                    None => None,
                }
            } else {
                None
            }
        },
        _ => None,
    }
}

/// The start of the full three-legged flow.
pub open spec fn start_full_flow(env: Env, s: StoreView, consumer: CredentialsView) -> Outcome {
    Outcome {
        store: s,
        flow: FlowView::AwaitRequestToken { consumer },
        action: ActionView::Send(request_token_call(env, consumer)),
    }
}

/// The start of a silent renewal that reuses a cached request token and
/// verification code.
pub open spec fn start_renewal(env: Env, s: StoreView, consumer: CredentialsView, d: LocalCredsView) -> Outcome {
    Outcome {
        store: s,
        flow: FlowView::AwaitAccessToken {
            consumer,
            request_token: d.request,
            verification_code: d.code,
            renewal: true,
        },
        action: ActionView::Send(access_token_call(env.renew_uri, consumer, d.request, d.code)),
    }
}

/// The lifecycle check: no cache runs the full flow; a cache is loaded into
/// the store, then an expired token runs the full flow, a token past the
/// renewal window is renewed, and any other is used as it is.
pub open spec fn lifecycle_check(
    env: Env,
    s: StoreView,
    consumer: CredentialsView,
    cached: Option<LocalCredsView>,
    now: int,
) -> Outcome {
    match cached {
        None => start_full_flow(env, s, consumer),
        Some(d) => {
            let h = hydrated(s, consumer.key, d);
            if is_expired(d, now) {
                start_full_flow(env, h, consumer)
            } else if needs_renewal(d, now, env.window) {
                start_renewal(env, h, consumer, d)
            } else {
                Outcome { store: h, flow: FlowView::Ready, action: ActionView::Ready }
            }
        },
    }
}

pub open spec fn failed(s: StoreView, message: Seq<char>) -> Outcome {
    Outcome { store: s, flow: FlowView::Failed, action: ActionView::Fail(message) }
}

/// An event that the flow does not wait for changes nothing.
pub open spec fn unexpected(s: StoreView, flow: FlowView) -> Outcome {
    Outcome { store: s, flow, action: ActionView::Fail("unexpected event"@) }
}

pub open spec fn is_answer(ev: EventView) -> bool {
    ev is Response || ev is TransportFailed
}

/// The record that a granted access token is persisted as: it expires at the
/// next midnight in the operating time zone and was obtained now.
pub open spec fn fresh_record(
    access: CredentialsView,
    request: CredentialsView,
    code: Seq<char>,
    expires_at: int,
    now: int,
) -> LocalCredsView {
    LocalCredsView { access, request, code, expires_at, last_request_timestamp: now }
}

/// The deadline for a token obtained at `now`, if the time zone database
/// gives one after `now`.
pub open spec fn deadline(now: i64) -> Option<int> {
    if !in_clock_range(now) {
        None
    } else {
        match eastern_midnight(now, 1) {
            Some(m) => if m > now { Some(m as int) } else { None },
            None => None,
        }
    }
}

/// One step of the flow on an event.
pub open spec fn step_spec(env: Env, s: StoreView, flow: FlowView, ev: EventView, now: i64) -> Outcome {
    match flow {
        FlowView::AwaitRequestToken { consumer } => {
            if !is_answer(ev) {
                unexpected(s, flow)
            } else {
                match granted(ev) {
                    Some(rt) => Outcome {
                        store: s,
                        flow: FlowView::AwaitVerificationCode { consumer, request_token: rt },
                        action: ActionView::Prompt(authorize_page(consumer.key, rt.key)),
                    },
                    None => failed(s, "request_token failed"@),
                }
            }
        },
        FlowView::AwaitVerificationCode { consumer, request_token } => match ev {
            EventView::VerificationCode(code) => Outcome {
                store: StoreView { entries: s.entries, code },
                flow: FlowView::AwaitAccessToken {
                    consumer,
                    request_token,
                    verification_code: code,
                    renewal: false,
                },
                action: ActionView::Send(access_token_call(env.access_uri, consumer, request_token, code)),
            },
            EventView::PromptFailed => failed(s, "verification code could not be read"@),
            _ => unexpected(s, flow),
        },
        FlowView::AwaitAccessToken { consumer, request_token, verification_code, renewal } => {
            if !is_answer(ev) {
                unexpected(s, flow)
            } else if granted(ev) is Some && deadline(now) is Some {
                let d = fresh_record(
                    granted(ev).unwrap(),
                    request_token,
                    verification_code,
                    deadline(now).unwrap(),
                    now as int,
                );
                Outcome { store: hydrated(s, consumer.key, d), flow: FlowView::Ready, action: ActionView::Persist(d) }
            } else if renewal {
                start_full_flow(env, s, consumer)
            } else {
                failed(s, "access_token failed"@)
            }
        },
        _ => unexpected(s, flow),
    }
}

/// The session: its mode and endpoints, the credential store that signs
/// requests, where its files live, and where the authentication flow stands.
pub struct Session<T> {
    pub mode: Mode,
    pub urls: UrlConfig<'static>,
    pub store: T,
    pub config_paths: ConfigPaths,
    /// Seconds after the last renewal at which the token is renewed.
    pub renewal_window: i64,
    pub flow: FlowState,
}

impl<T: Store> Session<T> {
    pub open spec fn wf(&self) -> bool {
        self.urls.wf() && self.store.inv()
    }

    pub open spec fn env(&self) -> Env {
        Env {
            request_uri: self.urls.request_token_for(self.mode),
            access_uri: self.urls.access_token_for(self.mode),
            renew_uri: self.urls.renew_token_for(self.mode),
            window: self.renewal_window as int,
        }
    }

    pub open spec fn store_view(&self) -> StoreView {
        StoreView { entries: self.store.entries(), code: self.store.code() }
    }

    pub open spec fn outcome(&self, action: ActionView) -> Outcome {
        Outcome { store: self.store_view(), flow: self.flow@, action }
    }

    pub fn new(mode: Mode, store: T, config_paths: ConfigPaths) -> (r: Session<T>)
        requires
            store.inv(),
        ensures
            r.wf(),
            r.mode == mode,
            r.store == store,
            r.flow@ == FlowView::Idle,
            r.renewal_window == RENEWAL_WINDOW_SECONDS,
            r.env().request_uri == by_mode(mode, REQUEST_TOKEN_URL@, SANDBOX_REQUEST_TOKEN_URL@),
            r.env().access_uri == by_mode(mode, ACCESS_TOKEN_URL@, SANDBOX_ACCESS_TOKEN_URL@),
            r.env().renew_uri == by_mode(mode, RENEW_TOKEN_URL@, SANDBOX_RENEW_TOKEN_URL@),
    {
        Session {
            mode,
            urls: UrlConfig::default(),
            store,
            config_paths,
            renewal_window: RENEWAL_WINDOW_SECONDS,
            flow: FlowState::Idle,
        }
    }

    /// The cached access token is past its deadline.
    pub fn expired_access_token(&self, local_data: &LocalCredsData, now: i64) -> (r: bool)
        ensures
            r == is_expired(local_data@, now as int),
    {
        now > local_data.expires_at
    }

    /// More than the renewal window has passed since the last renewal.
    pub fn should_renew_access_token(&self, local_data: &LocalCredsData, now: i64) -> (r: bool)
        ensures
            r == needs_renewal(local_data@, now as int, self.renewal_window as int),
    {
        (now as i128) - (local_data.last_request_timestamp as i128) > (self.renewal_window as i128)
    }

    /// Loads a cache record into the store: the access token under the
    /// consumer key, the request token beside it, and the verification code.
    pub fn hydrate_local_store(&mut self, client_config: &ClientConfig, local_data: &LocalCredsData)
        requires
            old(self).wf(),
        ensures
            final(self).wf(),
            final(self).env() == old(self).env(),
            final(self).flow == old(self).flow,
            final(self).store_view() == hydrated(old(self).store_view(), client_config.consumer_key@, local_data@),
    {
        self.hydrate(&client_config.consumer_key, local_data);
    }

    fn hydrate(&mut self, consumer_key: &String, local_data: &LocalCredsData)
        requires
            old(self).wf(),
        ensures
            final(self).wf(),
            final(self).env() == old(self).env(),
            final(self).flow == old(self).flow,
            final(self).store_view() == hydrated(old(self).store_view(), consumer_key@, local_data@),
    {
        let mut request_key = consumer_key.clone();
        request_key.append("request_token");
        self.store.put(consumer_key.clone(), local_data.access_creds.duplicate());
        self.store.put(request_key, local_data.request_token_creds.duplicate());
        self.store.set_verification_code(local_data.verification_code.clone());
    }

    fn request_token_call(&self, consumer: &Credentials) -> (r: AuthRequest)
        requires
            self.wf(),
        ensures
            r@ == request_token_call(self.env(), consumer@),
            r.wf(),
    {
        let uri = match self.mode {
            Mode::Sandbox => self.urls.sandbox_request_token_url,
            Mode::Live => self.urls.request_token_url,
        };
        let r = AuthRequest {
            method: String::from_str("GET"),
            uri: String::from_str(uri),
            consumer: consumer.duplicate(),
            token: None,
            callback: Some(String::from_str("oob")),
            verifier: None,
            params: Vec::new(),
        };
        assert(r@.params =~= Seq::<(Seq<char>, Seq<char>)>::empty());
        r
    }

    fn access_token_call(&self, renewal: bool, consumer: &Credentials, request_token: &Credentials, code: &String) -> (r: AuthRequest)
        requires
            self.wf(),
        ensures
            r@ == access_token_call(
                if renewal { self.env().renew_uri } else { self.env().access_uri },
                consumer@,
                request_token@,
                code@,
            ),
            r.wf(),
    {
        let uri = match (self.mode, renewal) {
            (Mode::Sandbox, true) => self.urls.sandbox_renew_token_url,
            (Mode::Live, true) => self.urls.renew_token_url,
            (Mode::Sandbox, false) => self.urls.sandbox_access_token_url,
            (Mode::Live, false) => self.urls.access_token_url,
        };
        let r = AuthRequest {
            method: String::from_str("GET"),
            uri: String::from_str(uri),
            consumer: consumer.duplicate(),
            token: Some(request_token.duplicate()),
            callback: None,
            verifier: Some(code.clone()),
            params: Vec::new(),
        };
        assert(r@.params =~= Seq::<(Seq<char>, Seq<char>)>::empty());
        r
    }

    /// Starts the full three-legged flow: asks for a request token.
    pub fn full_access_flow(&mut self, client_config: &ClientConfig) -> (r: AuthAction)
        requires
            old(self).wf(),
        ensures
            final(self).wf(),
            final(self).env() == old(self).env(),
            final(self).outcome(r@) == start_full_flow(old(self).env(), old(self).store_view(), client_config.consumer_view()),
            r matches AuthAction::Send(req) ==> req.wf(),
    {
        let consumer = client_config.consumer();
        let req = self.request_token_call(&consumer);
        self.flow = FlowState::AwaitRequestToken { consumer };
        AuthAction::Send(req)
    }

    /// Starts a silent renewal with the cached request token and
    /// verification code.
    pub fn renew_access_token(&mut self, client_config: &ClientConfig, local_data: &LocalCredsData) -> (r: AuthAction)
        requires
            old(self).wf(),
        ensures
            final(self).wf(),
            final(self).env() == old(self).env(),
            final(self).outcome(r@) == start_renewal(
                old(self).env(),
                old(self).store_view(),
                client_config.consumer_view(),
                local_data@,
            ),
            r matches AuthAction::Send(req) ==> req.wf(),
    {
        let consumer = client_config.consumer();
        let req = self.access_token_call(true, &consumer, &local_data.request_token_creds, &local_data.verification_code);
        self.flow = FlowState::AwaitAccessToken {
            consumer,
            request_token: local_data.request_token_creds.duplicate(),
            verification_code: local_data.verification_code.clone(),
            renewal: true,
        };
        AuthAction::Send(req)
    }

    /// The lifecycle check, run at startup and at each daily rollover, with
    /// the cache as it was read (`None` when absent or unreadable) and the
    /// current instant.
    pub fn ensure_valid_session(
        &mut self,
        client_config: &ClientConfig,
        cached: Option<LocalCredsData>,
        now: i64,
    ) -> (r: AuthAction)
        requires
            old(self).wf(),
        ensures
            final(self).wf(),
            final(self).env() == old(self).env(),
            final(self).outcome(r@) == lifecycle_check(
                old(self).env(),
                old(self).store_view(),
                client_config.consumer_view(),
                match cached {
                    Some(d) => Some(d@),
                    None => None,
                },
                now as int,
            ),
            r matches AuthAction::Send(req) ==> req.wf(),
    {
        match cached {
            None => self.full_access_flow(client_config),
            Some(cached_creds) => {
                self.hydrate_local_store(client_config, &cached_creds);
                if self.expired_access_token(&cached_creds, now) {
                    self.full_access_flow(client_config)
                } else if self.should_renew_access_token(&cached_creds, now) {
                    self.renew_access_token(client_config, &cached_creds)
                } else {
                    self.flow = FlowState::Ready;
                    AuthAction::Ready
                }
            },
        }
    }

    /// A business request, with its form-encoded parameters, to be signed with
    /// the consumer and the access token that the store holds under the
    /// consumer key; `None` while it holds none.
    pub fn access_request(
        &self,
        client_config: &ClientConfig,
        method: &str,
        uri: &str,
        params: Vec<(String, String)>,
    ) -> (r: Option<AuthRequest>)
        requires
            self.wf(),
        ensures
            r is Some <==> self.store.entries().contains_key(client_config.consumer_key@),
            r matches Some(req) ==> req@ == (AuthRequestView {
                method: method@,
                uri: uri@,
                consumer: client_config.consumer_view(),
                token: Some(self.store.entries()[client_config.consumer_key@]),
                callback: None,
                verifier: None,
                params: params@.map_values(|p: (String, String)| (p.0@, p.1@)),
            }),
    {
        match self.store.get(client_config.consumer_key.clone()) {
            Some(access) => Some(AuthRequest {
                method: String::from_str(method),
                uri: String::from_str(uri),
                consumer: client_config.consumer(),
                token: Some(access.duplicate()),
                callback: None,
                verifier: None,
                params,
            }),
            None => None,
        }
    }

    /// Advances the flow on what the caller reports, at instant `now`.
    pub fn handle_event(&mut self, event: AuthEvent, now: i64) -> (r: AuthAction)
        requires
            old(self).wf(),
        ensures
            final(self).wf(),
            final(self).env() == old(self).env(),
            final(self).outcome(r@) == step_spec(old(self).env(), old(self).store_view(), old(self).flow@, event@, now),
            r matches AuthAction::Send(req) ==> req.wf(),
            r matches AuthAction::Persist(d) ==> d.wf() && Some(d.expires_at) == eastern_midnight(now, 1)
                && d.last_request_timestamp == now,
    {
        let mut flow = FlowState::Idle;
        std::mem::swap(&mut self.flow, &mut flow);
        match flow {
            FlowState::AwaitRequestToken { consumer } => {
                let answer = match &event {
                    AuthEvent::Response { status, body } => Some(
                        if 200 <= *status && *status < 300 { parse_token_response(body) } else { None },
                    ),
                    AuthEvent::TransportFailed => Some(None),
                    _ => None,
                };
                match answer {
                    None => {
                        self.flow = FlowState::AwaitRequestToken { consumer };
                        AuthAction::Fail(RuntimeError::new("unexpected event"))
                    },
                    Some(None) => {
                        self.flow = FlowState::Failed;
                        AuthAction::Fail(RuntimeError::new("request_token failed"))
                    },
                    Some(Some(request_token)) => {
                        let url = self.urls.authorize_url(&consumer.key, &request_token.key);
                        self.flow = FlowState::AwaitVerificationCode { consumer, request_token };
                        AuthAction::Prompt(url)
                    },
                }
            },
            FlowState::AwaitVerificationCode { consumer, request_token } => match event {
                AuthEvent::VerificationCode(code) => {
                    self.store.set_verification_code(code.clone());
                    let req = self.access_token_call(false, &consumer, &request_token, &code);
                    self.flow = FlowState::AwaitAccessToken {
                        consumer,
                        request_token,
                        verification_code: code,
                        renewal: false,
                    };
                    AuthAction::Send(req)
                },
                AuthEvent::PromptFailed => {
                    self.flow = FlowState::Failed;
                    AuthAction::Fail(RuntimeError::new("verification code could not be read"))
                },
                _ => {
                    self.flow = FlowState::AwaitVerificationCode { consumer, request_token };
                    AuthAction::Fail(RuntimeError::new("unexpected event"))
                },
            },
            FlowState::AwaitAccessToken { consumer, request_token, verification_code, renewal } => {
                let answer = match &event {
                    AuthEvent::Response { status, body } => Some(
                        if 200 <= *status && *status < 300 { parse_token_response(body) } else { None },
                    ),
                    AuthEvent::TransportFailed => Some(None),
                    _ => None,
                };
                let expires = midnight_eastern_at(now, 1);
                match answer {
                    None => {
                        self.flow = FlowState::AwaitAccessToken { consumer, request_token, verification_code, renewal };
                        AuthAction::Fail(RuntimeError::new("unexpected event"))
                    },
                    Some(granted) => {
                        match (granted, expires) {
                            (Some(access_creds), Some(expires_at)) if expires_at > now => {
                                let data = LocalCredsData {
                                    access_creds,
                                    request_token_creds: request_token,
                                    verification_code,
                                    expires_at,
                                    last_request_timestamp: now,
                                };
                                self.hydrate(&consumer.key, &data);
                                self.flow = FlowState::Ready;
                                AuthAction::Persist(data)
                            },
                            _ => {
                                if renewal {
                                    let req = self.request_token_call(&consumer);
                                    self.flow = FlowState::AwaitRequestToken { consumer };
                                    AuthAction::Send(req)
                                } else {
                                    self.flow = FlowState::Failed;
                                    AuthAction::Fail(RuntimeError::new("access_token failed"))
                                }
                            },
                        }
                    },
                }
            },
            other => {
                self.flow = other;
                AuthAction::Fail(RuntimeError::new("unexpected event"))
            },
        }
    }
}

/// Rehydration is idempotent: with a cached record that is neither expired
/// nor past the renewal window, the lifecycle check asks for no network call,
/// and a second check leaves the store as the first one left it.
pub proof fn lemma_rehydration_idempotent(
    env: Env,
    s: StoreView,
    consumer: CredentialsView,
    d: LocalCredsView,
    now1: int,
    now2: int,
)
    requires
        !is_expired(d, now1),
        !needs_renewal(d, now1, env.window),
        !is_expired(d, now2),
        !needs_renewal(d, now2, env.window),
    ensures
        ({
            let first = lifecycle_check(env, s, consumer, Some(d), now1);
            let second = lifecycle_check(env, first.store, consumer, Some(d), now2);
            &&& first.action == ActionView::Ready
            &&& second.action == ActionView::Ready
            &&& second.store == first.store
        }),
{
    let first = lifecycle_check(env, s, consumer, Some(d), now1);
    let second = lifecycle_check(env, first.store, consumer, Some(d), now2);
    assert(second.store.entries =~= first.store.entries);
}

/// An expired cached token always runs the full flow from a new request
/// token, never a renewal, whatever request token the record holds.
pub proof fn lemma_expired_runs_full_flow(
    env: Env,
    s: StoreView,
    consumer: CredentialsView,
    d: LocalCredsView,
    now: int,
)
    requires
        is_expired(d, now),
    ensures
        ({
            let o = lifecycle_check(env, s, consumer, Some(d), now);
            &&& o.action == ActionView::Send(request_token_call(env, consumer))
            &&& o.flow == FlowView::AwaitRequestToken { consumer }
        }),
{
}

/// A failed renewal falls back to the full flow, and that flow succeeds when
/// its request token, verification code and access token come through: no
/// error reaches the caller on the way.
pub proof fn lemma_renewal_falls_back(
    env: Env,
    s: StoreView,
    consumer: CredentialsView,
    request_token: CredentialsView,
    code: Seq<char>,
    failure: EventView,
    now0: i64,
    request_answer: EventView,
    now1: i64,
    new_code: Seq<char>,
    now2: i64,
    access_answer: EventView,
    now3: i64,
)
    requires
        is_answer(failure),
        granted(failure) is None,
        granted(request_answer) is Some,
        granted(access_answer) is Some,
        deadline(now3) is Some,
    ensures
        ({
            let renewing = FlowView::AwaitAccessToken {
                consumer,
                request_token,
                verification_code: code,
                renewal: true,
            };
            let o0 = step_spec(env, s, renewing, failure, now0);
            let o1 = step_spec(env, o0.store, o0.flow, request_answer, now1);
            let o2 = step_spec(env, o1.store, o1.flow, EventView::VerificationCode(new_code), now2);
            let o3 = step_spec(env, o2.store, o2.flow, access_answer, now3);
            &&& o0 == start_full_flow(env, s, consumer)
            &&& o1.action is Prompt
            &&& o2.action is Send
            &&& o3.action is Persist
            &&& o3.flow == FlowView::Ready
        }),
{
}

} // verus!
