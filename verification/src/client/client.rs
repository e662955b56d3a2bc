//! The client: where the gateway is, and which tokens it has.
use crate::auth::types;
use crate::auth::types::TokenSet;
use crate::client::base_url;
use crate::client::base_url::normalize_gateway_base_url;
use crate::client::base_url::normalize_override_base_url;
use crate::shared::errors;
use crate::shared::errors::Error;
use crate::shared::text::same_text;
use vstd::prelude::*;

verus! {

/// Where the gateway is, unless the configuration says otherwise.
pub const DEFAULT_GATEWAY_BASE_URL: &'static str = "https://acosmi.com";

/// The budget of a request that is not a stream, in milliseconds.
pub const DEFAULT_API_TIMEOUT_MS: u64 = 60_000;

/// The code of an error: a browser blocked the request.
pub const ERR_OAUTH_CORS_BLOCKED: &'static str = "oauth_cors_blocked";

/// The code of an error: the refresh proxy failed.
pub const ERR_REFRESH_PROXY_FAILED: &'static str = "refresh_proxy_failed";

/// The code of an error: the tokens have expired.
pub const ERR_TOKEN_EXPIRED: &'static str = "token_expired";

/// What a gateway says of how it filtered a list of models. A text that is not listed here stands for
/// itself.
#[derive(Debug, Clone, PartialEq, Eq)]
pub struct FilterStatus(pub String);

impl FilterStatus {
    pub const OK: &'static str = "ok";

    pub const ADMIN_BYPASS: &'static str = "admin-bypass";

    pub const INTERNAL_BYPASS: &'static str = "internal-bypass";

    pub const DISABLED_BY_FLAG: &'static str = "disabled-by-flag";

    pub const FALLBACK_TKDIST_ERROR: &'static str = "fallback-tkdist-error";

    pub const FALLBACK_TKDIST_SKEW: &'static str = "fallback-tkdist-deployment-skew";

    pub const FALLBACK_NO_BUCKETS: &'static str = "fallback-no-buckets";

    pub const FALLBACK_MISSING_USER: &'static str = "fallback-missing-userid";

    /// The gateway says nothing.
    pub const UNKNOWN: &'static str = "";

    /// Whether the status is that text.
    pub fn says(&self, status: &str) -> (same: bool)
        ensures
            same == (self.0@ == status@),
    {
        same_text(self.0.as_str(), status)
    }
}

/// How tokens are refreshed in a browser.
#[derive(Debug, Clone, Copy, PartialEq, Eq, Structural)]
pub enum BrowserRefreshMode {
    /// By the issuer.
    Direct,
    /// By a proxy.
    ServerProxy,
    /// Not at all.
    Never,
}

/// Which metadata of the authorization server is asked for.
#[derive(Debug, Clone, Copy, PartialEq, Eq, Structural)]
pub enum OAuthMetadataProfile {
    Desktop,
    Web,
}

impl Default for BrowserRefreshMode {
    fn default() -> (mode: BrowserRefreshMode)
        ensures
            mode == BrowserRefreshMode::Direct,
    {
        BrowserRefreshMode::Direct
    }
}

impl Default for OAuthMetadataProfile {
    fn default() -> (profile: OAuthMetadataProfile)
        ensures
            profile == OAuthMetadataProfile::Desktop,
    {
        OAuthMetadataProfile::Desktop
    }
}

/// What a client is made from.
pub struct Config {
    pub server_url: Option<String>,
    pub compliance_base_url: Option<String>,
    pub api_base_url: Option<String>,
    pub oauth_metadata_profile: Option<OAuthMetadataProfile>,
    pub browser_refresh_mode: Option<BrowserRefreshMode>,
    pub refresh_proxy_url: Option<String>,
}

impl Default for Config {
    fn default() -> (config: Config)
        ensures
            config.server_url is None,
            config.compliance_base_url is None,
            config.api_base_url is None,
            config.oauth_metadata_profile is None,
            config.browser_refresh_mode is None,
            config.refresh_proxy_url is None,
    {
        Config {
            server_url: None,
            compliance_base_url: None,
            api_base_url: None,
            oauth_metadata_profile: None,
            browser_refresh_mode: None,
            refresh_proxy_url: None,
        }
    }
}

/// A client.
pub struct Client {
    server_url: String,
    compliance_base_url: Option<String>,
    api_base_url: Option<String>,
    oauth_metadata_profile: OAuthMetadataProfile,
    browser_refresh_mode: BrowserRefreshMode,
    refresh_proxy_url: Option<String>,
    tokens: Option<TokenSet>,
}

/// What a [`Client`] holds.
pub ghost struct ClientView {
    pub server_url: Seq<char>,
    pub compliance_base_url: Option<Seq<char>>,
    pub api_base_url: Option<Seq<char>>,
    pub oauth_metadata_profile: OAuthMetadataProfile,
    pub browser_refresh_mode: BrowserRefreshMode,
    pub refresh_proxy_url: Option<Seq<char>>,
    pub tokens: Option<types::TokenSetView>,
}

impl View for Client {
    type V = ClientView;

    closed spec fn view(&self) -> ClientView {
        ClientView {
            server_url: self.server_url@,
            compliance_base_url: self.compliance_base_url.deep_view(),
            api_base_url: self.api_base_url.deep_view(),
            oauth_metadata_profile: self.oauth_metadata_profile,
            browser_refresh_mode: self.browser_refresh_mode,
            refresh_proxy_url: self.refresh_proxy_url.deep_view(),
            tokens: self.tokens.deep_view(),
        }
    }
}

/// Where the gateway is.
pub open spec fn gateway_url(given: Option<Seq<char>>) -> Result<Seq<char>, Seq<char>> {
    match given {
        Some(text) => base_url::normalized(text, "serverURL"@),
        None => Ok(DEFAULT_GATEWAY_BASE_URL@),
    }
}

/// A base URL in place of that of the gateway, where one is given.
pub open spec fn override_url(given: Option<Seq<char>>, label: Seq<char>) -> Result<
    Option<Seq<char>>,
    Seq<char>,
> {
    match given {
        Some(text) => match base_url::normalized(text, label) {
            Ok(base) => Ok(Some(base)),
            Err(message) => Err(message),
        },
        None => Ok(None),
    }
}

/// The client that a configuration stands for, without tokens. The first URL that is wrong decides
/// what is wrong with the configuration.
pub open spec fn client_of(config: Config) -> Result<ClientView, Seq<char>> {
    let server_url = gateway_url(config.server_url.deep_view());
    let compliance = override_url(config.compliance_base_url.deep_view(), "complianceBaseURL"@);
    let api = override_url(config.api_base_url.deep_view(), "apiBaseURL"@);
    if server_url is Err {
        Err(server_url->Err_0)
    } else if compliance is Err {
        Err(compliance->Err_0)
    } else if api is Err {
        Err(api->Err_0)
    } else {
        Ok(
            ClientView {
                server_url: server_url->Ok_0,
                compliance_base_url: compliance->Ok_0,
                api_base_url: api->Ok_0,
                oauth_metadata_profile: match config.oauth_metadata_profile {
                    Some(profile) => profile,
                    None => OAuthMetadataProfile::Desktop,
                },
                browser_refresh_mode: match config.browser_refresh_mode {
                    Some(mode) => mode,
                    None => BrowserRefreshMode::Direct,
                },
                refresh_proxy_url: config.refresh_proxy_url.deep_view(),
                tokens: None,
            },
        )
    }
}

/// The tokens of a client that has asked its store: those that the store has. A store that cannot be
/// read is one without tokens.
pub open spec fn stored(loaded: errors::Result<Option<TokenSet>>) -> Option<types::TokenSetView> {
    match loaded {
        Ok(tokens) => tokens.deep_view(),
        Err(_) => None,
    }
}

/// `result` is the outcome `expected`.
pub open spec fn client_told(
    result: errors::Result<Client>,
    expected: Result<ClientView, Seq<char>>,
) -> bool {
    match result {
        Ok(client) => expected == Ok::<ClientView, Seq<char>>(client@),
        Err(error) => error@ matches errors::ErrorView::Other(message) && expected == Err::<
            ClientView,
            Seq<char>,
        >(message),
    }
}

fn read_gateway(given: &Option<String>) -> (result: errors::Result<String>)
    ensures
        base_url::url_told(result, gateway_url(given.deep_view())),
{
    match given {
        Some(text) => normalize_gateway_base_url(text.as_str()),
        None => Ok(DEFAULT_GATEWAY_BASE_URL.to_string()),
    }
}

fn read_override(given: &Option<String>, label: &str) -> (result: errors::Result<Option<String>>)
    ensures
        match result {
            Ok(base) => override_url(given.deep_view(), label@) == Ok::<
                Option<Seq<char>>,
                Seq<char>,
            >(base.deep_view()),
            Err(error) => error@ matches errors::ErrorView::Other(message) && override_url(
                given.deep_view(),
                label@,
            ) == Err::<Option<Seq<char>>, Seq<char>>(message),
        },
{
    match given {
        Some(text) => match normalize_override_base_url(text.as_str(), label) {
            Ok(base) => Ok(Some(base)),
            Err(error) => Err(error),
        },
        None => Ok(None),
    }
}

fn borrow_text(s: &Option<String>) -> (text: Option<&str>)
    ensures
        text.deep_view() == s.deep_view(),
{
    match s {
        Some(text) => Some(text.as_str()),
        None => None,
    }
}

/// What a client without tokens says.
pub open spec fn not_authorized() -> Seq<char> {
    "not authorized: call login() first"@
}

impl Client {
    /// A client without tokens.
    pub fn new(config: Config) -> (result: errors::Result<Client>)
        ensures
            client_told(result, client_of(config)),
    {
        let server_url: String = match read_gateway(&config.server_url) {
            Ok(base) => base,
            Err(error) => return Err(error),
        };
        let compliance_base_url: Option<String> = match read_override(
            &config.compliance_base_url,
            "complianceBaseURL",
        ) {
            Ok(base) => base,
            Err(error) => return Err(error),
        };
        let api_base_url: Option<String> = match read_override(
            &config.api_base_url,
            "apiBaseURL",
        ) {
            Ok(base) => base,
            Err(error) => return Err(error),
        };
        let oauth_metadata_profile: OAuthMetadataProfile = match config.oauth_metadata_profile {
            Some(profile) => profile,
            None => OAuthMetadataProfile::default(),
        };
        let browser_refresh_mode: BrowserRefreshMode = match config.browser_refresh_mode {
            Some(mode) => mode,
            None => BrowserRefreshMode::default(),
        };
        Ok(
            Client {
                server_url,
                compliance_base_url,
                api_base_url,
                oauth_metadata_profile,
                browser_refresh_mode,
                refresh_proxy_url: config.refresh_proxy_url,
                tokens: None,
            },
        )
    }

    /// A client with the tokens that its store had. `loaded` is what came of asking the store.
    pub fn create(config: Config, loaded: errors::Result<Option<TokenSet>>) -> (result:
        errors::Result<Client>)
        ensures
            client_told(
                result,
                match client_of(config) {
                    Ok(client) => Ok(ClientView { tokens: stored(loaded), ..client }),
                    Err(message) => Err(message),
                },
            ),
    {
        match Client::new(config) {
            Ok(client) => {
                let mut client: Client = client;
                client.take_stored(loaded);
                Ok(client)
            },
            Err(error) => Err(error),
        }
    }

    /// Takes over the tokens that the store has. A store that cannot be read, or has none, changes
    /// nothing. `loaded` is what came of asking the store.
    pub fn take_stored(&mut self, loaded: errors::Result<Option<TokenSet>>)
        ensures
            final(self)@ == (match stored(loaded) {
                Some(tokens) => ClientView { tokens: Some(tokens), ..old(self)@ },
                None => old(self)@,
            }),
    {
        if let Ok(Some(tokens)) = loaded {
            self.tokens = Some(tokens);
        }
    }

    /// Whether the client has tokens.
    pub fn is_authorized(&self) -> (authorized: bool)
        ensures
            authorized == (self@.tokens is Some),
    {
        self.tokens.is_some()
    }

    /// Where the gateway is.
    pub fn server_url(&self) -> (url: &str)
        ensures
            url@ == self@.server_url,
    {
        self.server_url.as_str()
    }

    /// Where the gateway is.
    pub fn base_url(&self) -> (url: &str)
        ensures
            url@ == self@.server_url,
    {
        self.server_url.as_str()
    }

    /// The tokens that the client has.
    pub fn token_set(&self) -> (tokens: Option<TokenSet>)
        ensures
            tokens.deep_view() == self@.tokens,
    {
        match &self.tokens {
            Some(tokens) => Some(tokens.clone()),
            None => None,
        }
    }

    /// The base URL of compliance requests, where it is not that of the gateway.
    pub fn compliance_base_url(&self) -> (url: Option<&str>)
        ensures
            url.deep_view() == self@.compliance_base_url,
    {
        borrow_text(&self.compliance_base_url)
    }

    /// The base URL of business requests, where it is not that of the gateway.
    pub fn api_base_url(&self) -> (url: Option<&str>)
        ensures
            url.deep_view() == self@.api_base_url,
    {
        borrow_text(&self.api_base_url)
    }

    /// Which metadata of the authorization server is asked for.
    pub fn oauth_metadata_profile(&self) -> (profile: OAuthMetadataProfile)
        ensures
            profile == self@.oauth_metadata_profile,
    {
        self.oauth_metadata_profile
    }

    /// How tokens are refreshed in a browser.
    pub fn browser_refresh_mode(&self) -> (mode: BrowserRefreshMode)
        ensures
            mode == self@.browser_refresh_mode,
    {
        self.browser_refresh_mode
    }

    /// The URL of the refresh proxy.
    pub fn refresh_proxy_url(&self) -> (url: Option<&str>)
        ensures
            url.deep_view() == self@.refresh_proxy_url,
    {
        borrow_text(&self.refresh_proxy_url)
    }

    /// The access token that the client has.
    pub fn ensure_token(&self) -> (result: errors::Result<String>)
        ensures
            match self@.tokens {
                Some(tokens) => result matches Ok(token) && token@ == tokens.access_token,
                None => result matches Err(error) && error@ == errors::ErrorView::Other(
                    not_authorized(),
                ),
            },
    {
        match &self.tokens {
            Some(tokens) => Ok(tokens.access_token.clone()),
            None => Err(Error::other("not authorized: call login() first".to_string())),
        }
    }

    /// The tokens that a refresh is asked for with: those that the store has, or else those that the
    /// client has. A store that cannot be read, or has none, does not take those of the client away.
    pub fn refresh_source(&self, loaded: errors::Result<Option<TokenSet>>) -> (result:
        errors::Result<TokenSet>)
        ensures
            match (stored(loaded), self@.tokens) {
                (Some(tokens), _) => result matches Ok(source) && source@ == tokens,
                (None, Some(tokens)) => result matches Ok(source) && source@ == tokens,
                (None, None) => result matches Err(error) && error@ == errors::ErrorView::Other(
                    not_authorized(),
                ),
            },
    {
        if let Ok(Some(tokens)) = loaded {
            return Ok(tokens);
        }
        match &self.tokens {
            Some(tokens) => Ok(tokens.clone()),
            None => Err(Error::other("not authorized: call login() first".to_string())),
        }
    }

    /// Takes over the tokens that a refresh gave. `_saved` is what came of storing them: a store that
    /// cannot be written does not fail the refresh. A refresh that failed changes nothing.
    pub fn force_refresh(
        &mut self,
        refreshed: errors::Result<TokenSet>,
        _saved: errors::Result<()>,
    ) -> (result: errors::Result<()>)
        ensures
            match refreshed {
                Ok(tokens) => result is Ok && final(self)@ == (ClientView {
                    tokens: Some(tokens@),
                    ..old(self)@
                }),
                Err(error) => result == Err::<(), Error>(error) && final(self)@ == old(self)@,
            },
    {
        match refreshed {
            Ok(tokens) => {
                self.tokens = Some(tokens);
                Ok(())
            },
            Err(error) => Err(error),
        }
    }
}

} // verus!
