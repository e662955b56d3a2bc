//! What holds of every client, and of the base URLs that it is built on.
use crate::auth::types::TokenSet;
use crate::client::base_url;
use crate::client::base_url::base_of_parts;
use crate::client::base_url::normalize_gateway_base_url;
use crate::client::base_url::normalize_override_base_url;
use crate::client::base_url::UrlParts;
use crate::client::client::BrowserRefreshMode;
use crate::client::client::Client;
use crate::client::client::Config;
use crate::client::client::FilterStatus;
use crate::client::client::OAuthMetadataProfile;
use crate::client::client::DEFAULT_API_TIMEOUT_MS;
use crate::client::client::DEFAULT_GATEWAY_BASE_URL;
use crate::client::client::ERR_OAUTH_CORS_BLOCKED;
use crate::client::client::ERR_REFRESH_PROXY_FAILED;
use crate::client::client::ERR_TOKEN_EXPIRED;
use crate::client::transport::DEFAULT_JSON_TIMEOUT_MS;
use crate::shared::errors;
use crate::shared::text;
use crate::shared::text_laws;
use vstd::prelude::*;

verus! {

/// The text is that path without the slashes at its end.
pub open spec fn is_path_but_slashes(kept: Seq<char>, path: Seq<char>) -> bool {
    &&& kept.len() <= path.len()
    &&& kept == path.take(kept.len() as int)
    &&& kept.len() > 0 ==> kept[kept.len() - 1] != '/'
    &&& forall|i: int| kept.len() <= i < path.len() ==> path[i] == '/'
}

/// The text names that port: nothing, where it is the usual one; and else a colon and its digits,
/// without a zero in front.
pub open spec fn is_port(said: Seq<char>, port: Option<u16>) -> bool {
    if port is Some {
        &&& said.len() > 1
        &&& said[0] == ':'
        &&& text_laws::value(said.skip(1)) == port->Some_0
        &&& forall|i: int| 1 <= i < said.len() ==> '0' <= #[trigger] said[i] <= '9'
        &&& said.len() > 2 ==> said[1] != '0'
    } else {
        said.len() == 0
    }
}

/// The parts of a base URL, put together.
pub open spec fn put_together(
    scheme: Seq<char>,
    host: Seq<char>,
    port: Seq<char>,
    path: Seq<char>,
) -> Seq<char> {
    scheme + "://"@ + host + port + path
}

/// What becomes of a URL with these parts: only one of the schemes `http` and `https`, without query
/// and fragment and with a host, is a base URL, and it then keeps its scheme, its host, its port and
/// its path but for the slashes at the end. What is wrong with any other is said under the label.
pub open spec fn becomes(
    u: base_url::UrlView,
    label: Seq<char>,
    result: errors::Result<String>,
) -> bool {
    let is_web = u.scheme == "http"@ || u.scheme == "https"@;
    let bare = !u.has_query && !u.has_fragment;
    &&& result is Ok <==> is_web && bare && u.host is Some
    &&& result is Ok ==> exists|port: Seq<char>, path: Seq<char>|
        is_port(port, u.port) && is_path_but_slashes(path, u.path) && result->Ok_0@
            == #[trigger] put_together(u.scheme, u.host->Some_0, port, path)
    &&& result is Err ==> result->Err_0 is Other
    &&& !is_web ==> result->Err_0->Other_0@ == label + ": unsupported scheme \""@ + u.scheme
        + "\" (only http/https allowed)"@
    &&& is_web && !bare ==> result->Err_0->Other_0@ == label
        + ": must not contain query or fragment"@
    &&& is_web && bare && u.host is None ==> result->Err_0->Other_0@ == label + ": missing host"@
}

proof fn lemma_becomes(u: base_url::UrlView, label: Seq<char>, result: errors::Result<String>)
    requires
        base_url::url_told(result, base_url::base_of(u, label)),
    ensures
        becomes(u, label, result),
{
    if result is Ok {
        let host = u.host->Some_0;
        let path = text::without_trailing_slashes(u.path);
        text::lemma_without_trailing_slashes(u.path);
        assert(path =~= u.path.take(path.len() as int));
        reveal_strlit(":");
        let port = match u.port {
            Some(n) => ":"@ + text::decimal(n as nat),
            None => Seq::empty(),
        };
        match u.port {
            Some(n) => {
                let digits = text::decimal(n as nat);
                text_laws::law_decimal_stands_for_the_number(n as nat);
                assert(port.skip(1) =~= digits);
                assert forall|i: int| 1 <= i < port.len() implies '0' <= #[trigger] port[i]
                    <= '9' by {
                    assert(port[i] == digits[i - 1]);
                }
                assert(base_url::authority(u, host) =~= host + port);
            },
            None => {
                assert(base_url::authority(u, host) =~= host + port);
            },
        }
        assert(is_port(port, u.port));
        assert(result->Ok_0@ =~= put_together(u.scheme, host, port, path));
    }
}

/// The parts of a URL become the base URL that they make up.
pub proof fn law_parts_become_a_base_url(
    u: UrlParts,
    label: &str,
    result: errors::Result<String>,
)
    requires
        call_ensures(base_of_parts, (&u, label), result),
    ensures
        becomes(u@, label@, result),
        u@.scheme == u.scheme@,
        u@.host == u.host.deep_view(),
        u@.port == u.port,
        u@.path == u.path@,
        u@.has_query == u.has_query,
        u@.has_fragment == u.has_fragment,
{
    lemma_becomes(u@, label@, result);
}

/// A text without white space around it is normalized as the URL that it is. An empty one, and one that
/// is no URL, are refused under the label.
pub open spec fn normalizes(
    core: Seq<char>,
    label: Seq<char>,
    result: errors::Result<String>,
) -> bool {
    &&& core.len() == 0 ==> result is Err && result->Err_0 is Other && result->Err_0->Other_0@
        == label + ": must not be empty"@
    &&& core.len() > 0 && base_url::url_parse(core) is Err ==> result is Err
        && result->Err_0 is Other && result->Err_0->Other_0@ == label + ": invalid URL: "@
        + base_url::url_parse(core)->Err_0
    &&& core.len() > 0 && base_url::url_parse(core) is Ok ==> becomes(
        base_url::url_parse(core)->Ok_0,
        label,
        result,
    )
}

/// The base URL of a gateway is normalized under the label `serverURL`, any other under its own. White
/// space around it does not count.
pub proof fn law_base_urls_are_normalized(
    given: &str,
    front: Seq<char>,
    core: Seq<char>,
    back: Seq<char>,
    label: &str,
    gateway: errors::Result<String>,
    other: errors::Result<String>,
)
    requires
        text_laws::all_space(front),
        text_laws::no_space_around(core),
        text_laws::all_space(back),
        given@ == text_laws::around(front, core, back),
        call_ensures(normalize_gateway_base_url, (given,), gateway),
        call_ensures(normalize_override_base_url, (given, label), other),
    ensures
        normalizes(core, "serverURL"@, gateway),
        normalizes(core, label@, other),
{
    text_laws::law_trimmed_is_the_core(front, core, back);
    if core.len() > 0 && base_url::url_parse(core) is Ok {
        lemma_becomes(base_url::url_parse(core)->Ok_0, "serverURL"@, gateway);
        lemma_becomes(base_url::url_parse(core)->Ok_0, label@, other);
    }
}

/// Where a base URL leads is where the text leads that it is made of.
pub open spec fn leads_to(given: Option<String>, label: Seq<char>, url: Option<Seq<char>>) -> bool {
    &&& given is None <==> url is None
    &&& given is Some ==> base_url::normalized(given->Some_0@, label) == Ok::<Seq<char>, Seq<char>>(
        url->Some_0,
    )
}

/// A client is where its configuration says: at the gateway that it names, or else at
/// `https://acosmi.com`, with the other two base URLs under their own names; it asks for the metadata,
/// refreshes in the way and over the proxy that the configuration says. It has no tokens.
pub proof fn law_client_is_as_configured(
    config: Config,
    client: Client,
    server: &str,
    base: &str,
    compliance: Option<&str>,
    api: Option<&str>,
    profile: OAuthMetadataProfile,
    mode: BrowserRefreshMode,
    proxy: Option<&str>,
    authorized: bool,
    tokens: Option<TokenSet>,
)
    requires
        call_ensures(Client::new, (config,), Ok::<Client, errors::Error>(client)),
        call_ensures(Client::server_url, (&client,), server),
        call_ensures(Client::base_url, (&client,), base),
        call_ensures(Client::compliance_base_url, (&client,), compliance),
        call_ensures(Client::api_base_url, (&client,), api),
        call_ensures(Client::oauth_metadata_profile, (&client,), profile),
        call_ensures(Client::browser_refresh_mode, (&client,), mode),
        call_ensures(Client::refresh_proxy_url, (&client,), proxy),
        call_ensures(Client::is_authorized, (&client,), authorized),
        call_ensures(Client::token_set, (&client,), tokens),
    ensures
        base@ == server@,
        config.server_url is None ==> server@ == "https://acosmi.com"@,
        config.server_url is Some ==> leads_to(config.server_url, "serverURL"@, Some(server@)),
        leads_to(config.compliance_base_url, "complianceBaseURL"@, compliance.deep_view()),
        leads_to(config.api_base_url, "apiBaseURL"@, api.deep_view()),
        config.oauth_metadata_profile is Some ==> profile == config.oauth_metadata_profile->Some_0,
        config.oauth_metadata_profile is None ==> profile is Desktop,
        config.browser_refresh_mode is Some ==> mode == config.browser_refresh_mode->Some_0,
        config.browser_refresh_mode is None ==> mode is Direct,
        proxy.deep_view() == config.refresh_proxy_url.deep_view(),
        !authorized,
        tokens is None,
{
}

/// The text is no base URL, and that is what is wrong with it.
pub open spec fn is_wrong(given: Option<String>, label: Seq<char>, message: Seq<char>) -> bool {
    given is Some && base_url::normalized(given->Some_0@, label) == Err::<Seq<char>, Seq<char>>(
        message,
    )
}

/// A configuration is refused just where one of its base URLs is none. What is wrong with the first of
/// them is what is said: first of the gateway's, then of the one for compliance, then of the one for
/// the API.
pub proof fn law_wrong_configurations_are_refused(config: Config, result: errors::Result<Client>)
    requires
        call_ensures(Client::new, (config,), result),
    ensures
        result is Err ==> result->Err_0 is Other && {
            let message = result->Err_0->Other_0@;
            ||| is_wrong(config.server_url, "serverURL"@, message)
            ||| is_wrong(config.compliance_base_url, "complianceBaseURL"@, message)
            ||| is_wrong(config.api_base_url, "apiBaseURL"@, message)
        },
        forall|message: Seq<char>| #[trigger]
            is_wrong(config.server_url, "serverURL"@, message) ==> result is Err
                && result->Err_0->Other_0@ == message,
        forall|message: Seq<char>| #[trigger]
            is_wrong(config.compliance_base_url, "complianceBaseURL"@, message) ==> result is Err,
        forall|message: Seq<char>| #[trigger]
            is_wrong(config.api_base_url, "apiBaseURL"@, message) ==> result is Err,
        forall|message: Seq<char>| #[trigger]
            is_wrong(config.compliance_base_url, "complianceBaseURL"@, message) && !(exists|
                other: Seq<char>,
            | is_wrong(config.server_url, "serverURL"@, other)) ==> result->Err_0->Other_0@
                == message,
{
    if config.server_url is Some {
        let outcome = base_url::normalized(config.server_url->Some_0@, "serverURL"@);
        if outcome is Err {
            assert(is_wrong(config.server_url, "serverURL"@, outcome->Err_0));
        }
    }
}

/// The tokens hold the same texts.
pub open spec fn same_texts(a: TokenSet, b: TokenSet) -> bool {
    &&& a.access_token@ == b.access_token@
    &&& a.refresh_token@ == b.refresh_token@
    &&& a.expires_at@ == b.expires_at@
    &&& a.scope@ == b.scope@
    &&& a.client_id@ == b.client_id@
    &&& a.server_url@ == b.server_url@
}

/// A client that is made with a store has the tokens that the store has, and none where the store has
/// none or cannot be read; in all else it is as it is made without.
pub proof fn law_client_has_the_stored_tokens(
    config: Config,
    loaded: errors::Result<Option<TokenSet>>,
    made: errors::Result<Client>,
    bare: errors::Result<Client>,
    authorized: bool,
    tokens: Option<TokenSet>,
    token: errors::Result<String>,
)
    requires
        call_ensures(Client::create, (config, loaded), made),
        call_ensures(Client::new, (config,), bare),
        made is Ok ==> call_ensures(Client::is_authorized, (&made->Ok_0,), authorized),
        made is Ok ==> call_ensures(Client::token_set, (&made->Ok_0,), tokens),
        made is Ok ==> call_ensures(Client::ensure_token, (&made->Ok_0,), token),
    ensures
        made is Ok <==> bare is Ok,
        made is Err ==> made->Err_0@ == bare->Err_0@,
        made is Ok ==> {
            let stored = loaded is Ok && loaded->Ok_0 is Some;
            &&& made->Ok_0@.server_url == bare->Ok_0@.server_url
            &&& made->Ok_0@.compliance_base_url == bare->Ok_0@.compliance_base_url
            &&& made->Ok_0@.api_base_url == bare->Ok_0@.api_base_url
            &&& made->Ok_0@.oauth_metadata_profile == bare->Ok_0@.oauth_metadata_profile
            &&& made->Ok_0@.browser_refresh_mode == bare->Ok_0@.browser_refresh_mode
            &&& made->Ok_0@.refresh_proxy_url == bare->Ok_0@.refresh_proxy_url
            &&& authorized <==> stored
            &&& tokens is Some <==> stored
            &&& stored ==> same_texts(tokens->Some_0, loaded->Ok_0->Some_0)
            &&& stored ==> token is Ok && token->Ok_0@ == loaded->Ok_0->Some_0.access_token@
            &&& !stored ==> token is Err && token->Err_0 is Other && token->Err_0->Other_0@
                == "not authorized: call login() first"@
        },
{
}

/// A client takes over the tokens that its store has, and keeps its own where the store has none or
/// cannot be read. In all else it stays as it is.
pub proof fn law_stored_tokens_are_taken_over(
    client: &mut Client,
    loaded: errors::Result<Option<TokenSet>>,
    before: Option<TokenSet>,
    after: Option<TokenSet>,
)
    requires
        call_ensures(Client::token_set, (&*old(client),), before),
        call_ensures(Client::take_stored, (client, loaded), ()),
        call_ensures(Client::token_set, (&*final(client),), after),
    ensures
        ({
            let stored = loaded is Ok && loaded->Ok_0 is Some;
            &&& stored ==> after is Some && same_texts(after->Some_0, loaded->Ok_0->Some_0)
            &&& !stored ==> (after is Some <==> before is Some)
            &&& !stored && before is Some ==> same_texts(after->Some_0, before->Some_0)
            &&& final(client)@.server_url == old(client)@.server_url
            &&& final(client)@.compliance_base_url == old(client)@.compliance_base_url
            &&& final(client)@.api_base_url == old(client)@.api_base_url
            &&& final(client)@.oauth_metadata_profile == old(client)@.oauth_metadata_profile
            &&& final(client)@.browser_refresh_mode == old(client)@.browser_refresh_mode
            &&& final(client)@.refresh_proxy_url == old(client)@.refresh_proxy_url
        }),
{
}

/// A refresh is asked for with the tokens that the store has, or else with those that the client has;
/// a client that has none either is told to log in.
pub proof fn law_refresh_starts_from_the_store(
    client: Client,
    loaded: errors::Result<Option<TokenSet>>,
    held: Option<TokenSet>,
    source: errors::Result<TokenSet>,
)
    requires
        call_ensures(Client::token_set, (&client,), held),
        call_ensures(Client::refresh_source, (&client, loaded), source),
    ensures
        ({
            let stored = loaded is Ok && loaded->Ok_0 is Some;
            &&& source is Ok <==> stored || held is Some
            &&& stored ==> same_texts(source->Ok_0, loaded->Ok_0->Some_0)
            &&& !stored && held is Some ==> same_texts(source->Ok_0, held->Some_0)
            &&& source is Err ==> source->Err_0 is Other && source->Err_0->Other_0@
                == "not authorized: call login() first"@
        }),
{
}

/// A refresh that succeeded leaves the client with the tokens that it gave, whether they could be
/// stored or not; one that failed is told as it failed and leaves the client as it was.
pub proof fn law_refreshed_tokens_are_taken_over(
    client: &mut Client,
    refreshed: errors::Result<TokenSet>,
    saved: errors::Result<()>,
    result: errors::Result<()>,
    after: Option<TokenSet>,
)
    requires
        call_ensures(Client::force_refresh, (client, refreshed, saved), result),
        call_ensures(Client::token_set, (&*final(client),), after),
    ensures
        result is Ok <==> refreshed is Ok,
        refreshed is Ok ==> after is Some && same_texts(after->Some_0, refreshed->Ok_0),
        refreshed is Err ==> result->Err_0 == refreshed->Err_0 && final(client)@ == old(client)@,
        final(client)@.server_url == old(client)@.server_url,
        final(client)@.compliance_base_url == old(client)@.compliance_base_url,
        final(client)@.api_base_url == old(client)@.api_base_url,
        final(client)@.oauth_metadata_profile == old(client)@.oauth_metadata_profile,
        final(client)@.browser_refresh_mode == old(client)@.browser_refresh_mode,
        final(client)@.refresh_proxy_url == old(client)@.refresh_proxy_url,
{
}

/// The access token of a client is that of its tokens; a client without any is told to log in.
pub proof fn law_access_token_is_that_of_the_tokens(
    client: Client,
    authorized: bool,
    tokens: Option<TokenSet>,
    token: errors::Result<String>,
)
    requires
        call_ensures(Client::is_authorized, (&client,), authorized),
        call_ensures(Client::token_set, (&client,), tokens),
        call_ensures(Client::ensure_token, (&client,), token),
    ensures
        authorized <==> tokens is Some,
        token is Ok <==> tokens is Some,
        token is Ok ==> token->Ok_0@ == tokens->Some_0.access_token@,
        token is Err ==> token->Err_0 is Other && token->Err_0->Other_0@
            == "not authorized: call login() first"@,
{
}

/// A configuration says nothing unless somebody says something in it; tokens are then refreshed by the
/// issuer, and the metadata is that for the desktop.
pub proof fn law_configurations_say_nothing_at_first(
    config: Config,
    mode: BrowserRefreshMode,
    profile: OAuthMetadataProfile,
)
    requires
        call_ensures(<Config as Default>::default, (), config),
        call_ensures(<BrowserRefreshMode as Default>::default, (), mode),
        call_ensures(<OAuthMetadataProfile as Default>::default, (), profile),
    ensures
        config.server_url is None,
        config.compliance_base_url is None,
        config.api_base_url is None,
        config.oauth_metadata_profile is None,
        config.browser_refresh_mode is None,
        config.refresh_proxy_url is None,
        mode is Direct,
        profile is Desktop,
{
}

/// A status says the text that it is, and no other.
pub proof fn law_status_says_what_it_is(status: FilterStatus, said: &str, same: bool)
    requires
        call_ensures(FilterStatus::says, (&status, said), same),
    ensures
        same <==> status.0@ == said@,
{
}

/// What the library calls by a name of its own goes by these texts and numbers.
pub proof fn law_names_are_fixed()
    ensures
        DEFAULT_GATEWAY_BASE_URL@ == "https://acosmi.com"@,
        crate::VERSION@ == "2.8.0"@,
        crate::client::observer::GATEWAY_REQUEST_ID_HEADER@ == "X-Acosmi-Request-Id"@,
        crate::client::observer::MAX_REQUEST_ID == 256,
        DEFAULT_API_TIMEOUT_MS == 60000,
        DEFAULT_JSON_TIMEOUT_MS == 30000,
        ERR_OAUTH_CORS_BLOCKED@ == "oauth_cors_blocked"@,
        ERR_REFRESH_PROXY_FAILED@ == "refresh_proxy_failed"@,
        ERR_TOKEN_EXPIRED@ == "token_expired"@,
        FilterStatus::OK@ == "ok"@,
        FilterStatus::ADMIN_BYPASS@ == "admin-bypass"@,
        FilterStatus::INTERNAL_BYPASS@ == "internal-bypass"@,
        FilterStatus::DISABLED_BY_FLAG@ == "disabled-by-flag"@,
        FilterStatus::FALLBACK_TKDIST_ERROR@ == "fallback-tkdist-error"@,
        FilterStatus::FALLBACK_TKDIST_SKEW@ == "fallback-tkdist-deployment-skew"@,
        FilterStatus::FALLBACK_NO_BUCKETS@ == "fallback-no-buckets"@,
        FilterStatus::FALLBACK_MISSING_USER@ == "fallback-missing-userid"@,
        FilterStatus::UNKNOWN@ == ""@,
{
}

} // verus!
