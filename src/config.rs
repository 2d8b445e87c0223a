use vstd::prelude::*;

use crate::credentials::{Credentials, CredentialsView};
use crate::keys::Key;
use crate::session::Mode;
use std::path::PathBuf;

verus! {

pub const REQUEST_TOKEN_URL: &'static str = "https://api.etrade.com/oauth/request_token";
pub const SANDBOX_REQUEST_TOKEN_URL: &'static str = "https://apisb.etrade.com/oauth/request_token";
pub const ACCESS_TOKEN_URL: &'static str = "https://api.etrade.com/oauth/access_token";
pub const SANDBOX_ACCESS_TOKEN_URL: &'static str = "https://apisb.etrade.com/oauth/access_token";
pub const RENEW_TOKEN_URL: &'static str = "https://api.etrade.com/oauth/renew_token";
pub const SANDBOX_RENEW_TOKEN_URL: &'static str = "https://apisb.etrade.com/oauth/renew_token";
pub const ACCOUNTS_LIST_URL: &'static str = "https://api.etrade.com/v1/accounts/list";
pub const SANDBOX_ACCOUNTS_LIST_URL: &'static str = "https://apisb.etrade.com/v1/accounts/list";
pub const QUOTE_URL: &'static str = "https://api.etrade.com/v1/market/quote";
pub const SANDBOX_QUOTE_URL: &'static str = "https://apisb.etrade.com/v1/market/quote";
pub const SEARCH_URL: &'static str = "https://api.etrade.com/v1/market/lookup";
pub const SANDBOX_SEARCH_URL: &'static str = "https://apisb.etrade.com/v1/market/lookup";
pub const PORTFOLIO_URL: &'static str = "https://api.etrade.com/v1/accounts/{}/portfolio";
pub const SANDBOX_PORTFOLIO_URL: &'static str = "https://apisb.etrade.com/v1/accounts/{}/portfolio";
pub const AUTHORIZE_URL: &'static str = "https://us.etrade.com/e/t/etws/authorize";
pub const ACCOUNTS_BASE_URL: &'static str = "https://api.etrade.com/v1/accounts/";
pub const SANDBOX_ACCOUNTS_BASE_URL: &'static str = "https://apisb.etrade.com/v1/accounts/";

/// The name of the human-editable consumer credentials file.
pub const FILE_NAME: &'static str = "client.yml";
/// The directory under the home directory that holds per-app configuration.
pub const CONFIG_DIR: &'static str = ".config";
/// This application's directory under `CONFIG_DIR`.
pub const APP_CONFIG_DIR: &'static str = "stonks-terminal";
/// The name of the token cache file.
pub const TOKEN_CACHE_FILE: &'static str = ".stonks_terminal_token_cache.json";

/// A URI that can be signed as it stands: it holds no query part.
pub open spec fn no_query(s: Seq<char>) -> bool {
    forall|i: int| 0 <= i < s.len() ==> s[i] != '?'
}

/// The keys that the screens react to.
#[derive(Clone)]
pub struct KeyBindings {
    pub back: Key,
    pub next_page: Key,
    pub previous_page: Key,
    pub search: Key,
    pub submit: Key,
    pub basic_view: Key,
}

impl Default for KeyBindings {
    /// `q` goes back, `Ctrl-d` and `Ctrl-u` page, `/` searches, `Enter`
    /// submits, `B` opens the basic view.
    fn default() -> (r: KeyBindings)
        ensures
            r.back == Key::Char('q'),
            r.next_page == Key::Ctrl('d'),
            r.previous_page == Key::Ctrl('u'),
            r.search == Key::Char('/'),
            r.submit == Key::Enter,
            r.basic_view == Key::Char('B'),
    {
        KeyBindings {
            back: Key::Char('q'),
            next_page: Key::Ctrl('d'),
            previous_page: Key::Ctrl('u'),
            search: Key::Char('/'),
            submit: Key::Enter,
            basic_view: Key::Char('B'),
        }
    }
}

/// The brokerage's endpoints, live and sandbox.
#[derive(Debug, Clone)]
pub struct UrlConfig<'a> {
    pub request_token_url: &'a str,
    pub sandbox_request_token_url: &'a str,
    pub access_token_url: &'a str,
    pub sandbox_access_token_url: &'a str,
    pub renew_token_url: &'a str,
    pub sandbox_renew_token_url: &'a str,
    pub quote_url: &'a str,
    pub sandbox_quote_url: &'a str,
    pub search_url: &'a str,
    pub sandbox_search_url: &'a str,
    pub portfolio_url: &'a str,
    pub sandbox_portfolio_url: &'a str,
    pub accounts_list_url: &'a str,
    pub sandbox_accounts_list_url: &'a str,
}

/// The URL for a mode: the live one or the sandbox one.
pub open spec fn by_mode(mode: Mode, live: Seq<char>, sandbox: Seq<char>) -> Seq<char> {
    match mode {
        Mode::Sandbox => sandbox,
        Mode::Live => live,
    }
}

impl<'a> UrlConfig<'a> {
    /// The endpoints of the three-legged flow can be signed as they stand.
    pub open spec fn wf(&self) -> bool {
        &&& no_query(self.request_token_url@)
        &&& no_query(self.sandbox_request_token_url@)
        &&& no_query(self.access_token_url@)
        &&& no_query(self.sandbox_access_token_url@)
        &&& no_query(self.renew_token_url@)
        &&& no_query(self.sandbox_renew_token_url@)
    }

    pub open spec fn request_token_for(&self, mode: Mode) -> Seq<char> {
        by_mode(mode, self.request_token_url@, self.sandbox_request_token_url@)
    }

    pub open spec fn access_token_for(&self, mode: Mode) -> Seq<char> {
        by_mode(mode, self.access_token_url@, self.sandbox_access_token_url@)
    }

    pub open spec fn renew_token_for(&self, mode: Mode) -> Seq<char> {
        by_mode(mode, self.renew_token_url@, self.sandbox_renew_token_url@)
    }

    /// The page where the user accepts the license and reads the
    /// verification code.
    pub fn authorize_url(&self, key: &String, token: &String) -> (r: String)
        ensures
            r@ == AUTHORIZE_URL@ + "?key="@ + key@ + "&token="@ + token@,
    {
        let mut url = String::from_str(AUTHORIZE_URL);
        url.append("?key=");
        url.append(key.as_str());
        url.append("&token=");
        url.append(token.as_str());
        url
    }

    pub fn accounts_list(&self, mode: &Mode) -> (r: String)
        ensures
            r@ == by_mode(*mode, self.accounts_list_url@, self.sandbox_accounts_list_url@),
    {
        let url = match mode {
            Mode::Sandbox => self.sandbox_accounts_list_url,
            Mode::Live => self.accounts_list_url,
        };
        String::from_str(url)
    }

    pub fn etrade_ticker_url(&self, symbol: &str, mode: &Mode) -> (r: String)
        ensures
            r@ == by_mode(*mode, self.quote_url@, self.sandbox_quote_url@) + "/"@ + symbol@,
    {
        let url = match mode {
            Mode::Sandbox => self.sandbox_quote_url,
            Mode::Live => self.quote_url,
        };
        let mut r = String::from_str(url);
        r.append("/");
        r.append(symbol);
        r
    }

    pub fn etrade_search_url(&self, search_input: &str, mode: &Mode) -> (r: String)
        ensures
            r@ == by_mode(*mode, self.search_url@, self.sandbox_search_url@) + "/"@ + search_input@,
    {
        let url = match mode {
            Mode::Sandbox => self.sandbox_search_url,
            Mode::Live => self.search_url,
        };
        let mut r = String::from_str(url);
        r.append("/");
        r.append(search_input);
        r
    }

    pub fn etrade_portfolio_url(&self, account_id_key: &str, mode: &Mode) -> (r: String)
        ensures
            r@ == by_mode(*mode, ACCOUNTS_BASE_URL@, SANDBOX_ACCOUNTS_BASE_URL@) + account_id_key@
                + "/portfolio"@,
    {
        let base = match mode {
            Mode::Sandbox => SANDBOX_ACCOUNTS_BASE_URL,
            Mode::Live => ACCOUNTS_BASE_URL,
        };
        let mut r = String::from_str(base);
        r.append(account_id_key);
        r.append("/portfolio");
        r
    }
}

impl<'a> Default for UrlConfig<'a> {
    fn default() -> (r: UrlConfig<'a>)
        ensures
            r.wf(),
            r.request_token_url@ == REQUEST_TOKEN_URL@,
            r.sandbox_request_token_url@ == SANDBOX_REQUEST_TOKEN_URL@,
            r.access_token_url@ == ACCESS_TOKEN_URL@,
            r.sandbox_access_token_url@ == SANDBOX_ACCESS_TOKEN_URL@,
            r.renew_token_url@ == RENEW_TOKEN_URL@,
            r.sandbox_renew_token_url@ == SANDBOX_RENEW_TOKEN_URL@,
            r.quote_url@ == QUOTE_URL@,
            r.sandbox_quote_url@ == SANDBOX_QUOTE_URL@,
            r.search_url@ == SEARCH_URL@,
            r.sandbox_search_url@ == SANDBOX_SEARCH_URL@,
            r.portfolio_url@ == PORTFOLIO_URL@,
            r.sandbox_portfolio_url@ == SANDBOX_PORTFOLIO_URL@,
            r.accounts_list_url@ == ACCOUNTS_LIST_URL@,
            r.sandbox_accounts_list_url@ == SANDBOX_ACCOUNTS_LIST_URL@,
    {
        proof {
            reveal_strlit("https://api.etrade.com/oauth/request_token");
            reveal_strlit("https://apisb.etrade.com/oauth/request_token");
            reveal_strlit("https://api.etrade.com/oauth/access_token");
            reveal_strlit("https://apisb.etrade.com/oauth/access_token");
            reveal_strlit("https://api.etrade.com/oauth/renew_token");
            reveal_strlit("https://apisb.etrade.com/oauth/renew_token");
        }
        UrlConfig {
            request_token_url: REQUEST_TOKEN_URL,
            sandbox_request_token_url: SANDBOX_REQUEST_TOKEN_URL,
            access_token_url: ACCESS_TOKEN_URL,
            sandbox_access_token_url: SANDBOX_ACCESS_TOKEN_URL,
            renew_token_url: RENEW_TOKEN_URL,
            sandbox_renew_token_url: SANDBOX_RENEW_TOKEN_URL,
            quote_url: QUOTE_URL,
            sandbox_quote_url: SANDBOX_QUOTE_URL,
            search_url: SEARCH_URL,
            sandbox_search_url: SANDBOX_SEARCH_URL,
            portfolio_url: PORTFOLIO_URL,
            sandbox_portfolio_url: SANDBOX_PORTFOLIO_URL,
            accounts_list_url: ACCOUNTS_LIST_URL,
            sandbox_accounts_list_url: SANDBOX_ACCOUNTS_LIST_URL,
        }
    }
}

/// Where the configuration file and the token cache live. Both sit in the
/// same per-app configuration directory.
#[derive(Debug)]
pub struct ConfigPaths {
    pub config_file_path: PathBuf,
    pub token_cache_path: PathBuf,
}

/// A filesystem path, carried through for the caller's file access.
#[verifier::external_type_specification]
#[verifier::external_body]
pub struct ExPathBuf(PathBuf);

/// The consumer (application) credentials, as the configuration file holds
/// them.
#[derive(Default, Clone, Debug, PartialEq)]
pub struct ClientConfig {
    pub consumer_key: String,
    pub consumer_secret: String,
}

impl ClientConfig {
    pub fn new() -> (r: ClientConfig)
        ensures
            r.consumer_key@ == Seq::<char>::empty(),
            r.consumer_secret@ == Seq::<char>::empty(),
    {
        ClientConfig { consumer_key: String::new(), consumer_secret: String::new() }
    }

    pub open spec fn consumer_view(&self) -> CredentialsView {
        CredentialsView { key: self.consumer_key@, secret: self.consumer_secret@ }
    }

    /// The consumer credentials that sign every request.
    pub fn consumer(&self) -> (r: Credentials)
        ensures
            r@ == self.consumer_view(),
    {
        Credentials::new(self.consumer_key.clone(), self.consumer_secret.clone())
    }
}

impl From<Credentials> for ClientConfig {
    fn from(t: Credentials) -> (r: ClientConfig) {
        ClientConfig { consumer_key: t.key, consumer_secret: t.secret }
    }
}

impl vstd::std_specs::convert::FromSpecImpl<Credentials> for ClientConfig {
    open spec fn obeys_from_spec() -> bool {
        true
    }

    open spec fn from_spec(t: Credentials) -> ClientConfig {
        ClientConfig { consumer_key: t.key, consumer_secret: t.secret }
    }
}

} // verus!
