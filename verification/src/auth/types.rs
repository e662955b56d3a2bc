//! Tokens and what surrounds them.
use crate::shared::decode;
use crate::shared::decode::check_record;
use crate::shared::decode::read_optional;
use crate::shared::decode::read_required;
use crate::shared::decode::FromJson;
use crate::shared::json;
use crate::shared::json::open_value;
use crate::shared::json::JsonRef;
use serde_json::Value;
use vstd::prelude::*;

verus! {

/// Metadata of an OAuth authorization server.
#[derive(Debug, Clone)]
pub struct ServerMetadata {
    pub issuer: String,
    pub authorization_endpoint: String,
    pub token_endpoint: String,
    pub revocation_endpoint: String,
    pub registration_endpoint: String,
    pub scopes_supported: Vec<String>,
}

/// What the token endpoint answers.
#[derive(Clone)]
pub struct TokenResponse {
    pub access_token: String,
    pub token_type: String,
    pub expires_in: i64,
    pub refresh_token: Option<String>,
    pub scope: Option<String>,
}

/// The tokens that are kept between runs.
pub struct TokenSet {
    pub access_token: String,
    pub refresh_token: String,
    /// In the form of ISO 8601.
    pub expires_at: String,
    pub scope: String,
    pub client_id: String,
    pub server_url: String,
}

/// What a dynamic registration answers.
#[derive(Clone)]
pub struct ClientRegistration {
    pub client_id: String,
    pub client_secret: Option<String>,
}

/// What a [`TokenSet`] holds.
#[verifier::ext_equal]
pub ghost struct TokenSetView {
    pub access_token: Seq<char>,
    pub refresh_token: Seq<char>,
    pub expires_at: Seq<char>,
    pub scope: Seq<char>,
    pub client_id: Seq<char>,
    pub server_url: Seq<char>,
}

impl View for TokenSet {
    type V = TokenSetView;

    open spec fn view(&self) -> TokenSetView {
        TokenSetView {
            access_token: self.access_token@,
            refresh_token: self.refresh_token@,
            expires_at: self.expires_at@,
            scope: self.scope@,
            client_id: self.client_id@,
            server_url: self.server_url@,
        }
    }
}

impl DeepView for TokenSet {
    type V = TokenSetView;

    open spec fn deep_view(&self) -> TokenSetView {
        self@
    }
}

impl Clone for TokenSet {
    fn clone(&self) -> (copy: TokenSet)
        ensures
            copy@ == self@,
    {
        TokenSet {
            access_token: self.access_token.clone(),
            refresh_token: self.refresh_token.clone(),
            expires_at: self.expires_at.clone(),
            scope: self.scope.clone(),
            client_id: self.client_id.clone(),
            server_url: self.server_url.clone(),
        }
    }
}

/// What a [`TokenSet`] may show of itself.
pub open spec fn redacted_token_set() -> Seq<char> {
    "TokenSet { .. }"@
}

/// What a [`TokenResponse`] may show of itself.
pub open spec fn redacted_token_response() -> Seq<char> {
    "TokenResponse { .. }"@
}

/// What a [`ClientRegistration`] may show of itself.
pub open spec fn redacted_client_registration() -> Seq<char> {
    "ClientRegistration { .. }"@
}

impl TokenSet {
    /// The text for logs. It holds nothing of the tokens.
    pub fn redacted(&self) -> (text: String)
        ensures
            text@ == redacted_token_set(),
    {
        "TokenSet { .. }".to_string()
    }
}

impl TokenResponse {
    /// The text for logs. It holds nothing of the tokens.
    pub fn redacted(&self) -> (text: String)
        ensures
            text@ == redacted_token_response(),
    {
        "TokenResponse { .. }".to_string()
    }
}

impl ClientRegistration {
    /// The text for logs. It holds nothing of the secret.
    pub fn redacted(&self) -> (text: String)
        ensures
            text@ == redacted_client_registration(),
    {
        "ClientRegistration { .. }".to_string()
    }
}

/// What a [`ServerMetadata`] holds.
#[verifier::ext_equal]
pub ghost struct ServerMetadataView {
    pub issuer: Seq<char>,
    pub authorization_endpoint: Seq<char>,
    pub token_endpoint: Seq<char>,
    pub revocation_endpoint: Seq<char>,
    pub registration_endpoint: Seq<char>,
    pub scopes_supported: Seq<Seq<char>>,
}

impl DeepView for ServerMetadata {
    type V = ServerMetadataView;

    open spec fn deep_view(&self) -> ServerMetadataView {
        ServerMetadataView {
            issuer: self.issuer.deep_view(),
            authorization_endpoint: self.authorization_endpoint.deep_view(),
            token_endpoint: self.token_endpoint.deep_view(),
            revocation_endpoint: self.revocation_endpoint.deep_view(),
            registration_endpoint: self.registration_endpoint.deep_view(),
            scopes_supported: self.scopes_supported.deep_view(),
        }
    }
}

/// What a [`TokenResponse`] holds.
#[verifier::ext_equal]
pub ghost struct TokenResponseView {
    pub access_token: Seq<char>,
    pub token_type: Seq<char>,
    pub expires_in: i64,
    pub refresh_token: Option<Seq<char>>,
    pub scope: Option<Seq<char>>,
}

impl DeepView for TokenResponse {
    type V = TokenResponseView;

    open spec fn deep_view(&self) -> TokenResponseView {
        TokenResponseView {
            access_token: self.access_token.deep_view(),
            token_type: self.token_type.deep_view(),
            expires_in: self.expires_in.deep_view(),
            refresh_token: self.refresh_token.deep_view(),
            scope: self.scope.deep_view(),
        }
    }
}

/// What a [`ClientRegistration`] holds.
#[verifier::ext_equal]
pub ghost struct ClientRegistrationView {
    pub client_id: Seq<char>,
    pub client_secret: Option<Seq<char>>,
}

impl DeepView for ClientRegistration {
    type V = ClientRegistrationView;

    open spec fn deep_view(&self) -> ClientRegistrationView {
        ClientRegistrationView {
            client_id: self.client_id.deep_view(),
            client_secret: self.client_secret.deep_view(),
        }
    }
}

impl FromJson for ServerMetadata {
    open spec fn from_json(doc: json::Json) -> Option<ServerMetadataView> {
        let shape = decode::record_shape(doc, 6);
        let issuer = decode::required_member::<String>(doc, 0, "issuer"@);
        let authorization_endpoint = decode::required_member::<String>(
            doc,
            1,
            "authorization_endpoint"@,
        );
        let token_endpoint = decode::required_member::<String>(doc, 2, "token_endpoint"@);
        let revocation_endpoint = decode::required_member::<String>(doc, 3, "revocation_endpoint"@);
        let registration_endpoint = decode::required_member::<String>(
            doc,
            4,
            "registration_endpoint"@,
        );
        let scopes_supported = decode::required_member::<Vec<String>>(doc, 5, "scopes_supported"@);
        if !shape || issuer is None || authorization_endpoint is None || token_endpoint is None
            || revocation_endpoint is None || registration_endpoint is None
            || scopes_supported is None {
            None
        } else {
            Some(
                ServerMetadataView {
                    issuer: issuer->Some_0,
                    authorization_endpoint: authorization_endpoint->Some_0,
                    token_endpoint: token_endpoint->Some_0,
                    revocation_endpoint: revocation_endpoint->Some_0,
                    registration_endpoint: registration_endpoint->Some_0,
                    scopes_supported: scopes_supported->Some_0,
                },
            )
        }
    }

    fn from_value(value: &Value) -> (result: Result<ServerMetadata, String>) {
        check_record(value, 6, "struct ServerMetadata")?;
        let issuer: String = read_required(
            value,
            0,
            "issuer",
            "struct ServerMetadata with 6 elements",
        )?;
        let authorization_endpoint: String = read_required(
            value,
            1,
            "authorization_endpoint",
            "struct ServerMetadata with 6 elements",
        )?;
        let token_endpoint: String = read_required(
            value,
            2,
            "token_endpoint",
            "struct ServerMetadata with 6 elements",
        )?;
        let revocation_endpoint: String = read_required(
            value,
            3,
            "revocation_endpoint",
            "struct ServerMetadata with 6 elements",
        )?;
        let registration_endpoint: String = read_required(
            value,
            4,
            "registration_endpoint",
            "struct ServerMetadata with 6 elements",
        )?;
        let scopes_supported: Vec<String> = read_required(
            value,
            5,
            "scopes_supported",
            "struct ServerMetadata with 6 elements",
        )?;
        Ok(
            ServerMetadata {
                issuer,
                authorization_endpoint,
                token_endpoint,
                revocation_endpoint,
                registration_endpoint,
                scopes_supported,
            },
        )
    }
}

impl FromJson for TokenResponse {
    open spec fn from_json(doc: json::Json) -> Option<TokenResponseView> {
        let shape = decode::record_shape(doc, 5);
        let access_token = decode::required_member::<String>(doc, 0, "access_token"@);
        let token_type = decode::required_member::<String>(doc, 1, "token_type"@);
        let expires_in = decode::required_member::<i64>(doc, 2, "expires_in"@);
        let refresh_token = decode::optional_member::<Option<String>>(
            doc,
            3,
            "refresh_token"@,
            None,
        );
        let scope = decode::optional_member::<Option<String>>(doc, 4, "scope"@, None);
        if !shape || access_token is None || token_type is None || expires_in is None
            || refresh_token is None || scope is None {
            None
        } else {
            Some(
                TokenResponseView {
                    access_token: access_token->Some_0,
                    token_type: token_type->Some_0,
                    expires_in: expires_in->Some_0,
                    refresh_token: refresh_token->Some_0,
                    scope: scope->Some_0,
                },
            )
        }
    }

    fn from_value(value: &Value) -> (result: Result<TokenResponse, String>) {
        check_record(value, 5, "struct TokenResponse")?;
        let access_token: String = read_required(
            value,
            0,
            "access_token",
            "struct TokenResponse with 5 elements",
        )?;
        let token_type: String = read_required(
            value,
            1,
            "token_type",
            "struct TokenResponse with 5 elements",
        )?;
        let expires_in: i64 = read_required(
            value,
            2,
            "expires_in",
            "struct TokenResponse with 5 elements",
        )?;
        let refresh_token: Option<String> = read_optional(value, 3, "refresh_token", None)?;
        let scope: Option<String> = read_optional(value, 4, "scope", None)?;
        Ok(
            TokenResponse {
                access_token,
                token_type,
                expires_in,
                refresh_token,
                scope,
            },
        )
    }
}

impl FromJson for TokenSet {
    open spec fn from_json(doc: json::Json) -> Option<TokenSetView> {
        let shape = decode::record_shape(doc, 6);
        let access_token = decode::required_member::<String>(doc, 0, "access_token"@);
        let refresh_token = decode::required_member::<String>(doc, 1, "refresh_token"@);
        let expires_at = decode::required_member::<String>(doc, 2, "expires_at"@);
        let scope = decode::required_member::<String>(doc, 3, "scope"@);
        let client_id = decode::required_member::<String>(doc, 4, "client_id"@);
        let server_url = decode::required_member::<String>(doc, 5, "server_url"@);
        if !shape || access_token is None || refresh_token is None || expires_at is None
            || scope is None || client_id is None || server_url is None {
            None
        } else {
            Some(
                TokenSetView {
                    access_token: access_token->Some_0,
                    refresh_token: refresh_token->Some_0,
                    expires_at: expires_at->Some_0,
                    scope: scope->Some_0,
                    client_id: client_id->Some_0,
                    server_url: server_url->Some_0,
                },
            )
        }
    }

    fn from_value(value: &Value) -> (result: Result<TokenSet, String>) {
        check_record(value, 6, "struct TokenSet")?;
        let access_token: String = read_required(
            value,
            0,
            "access_token",
            "struct TokenSet with 6 elements",
        )?;
        let refresh_token: String = read_required(
            value,
            1,
            "refresh_token",
            "struct TokenSet with 6 elements",
        )?;
        let expires_at: String = read_required(
            value,
            2,
            "expires_at",
            "struct TokenSet with 6 elements",
        )?;
        let scope: String = read_required(value, 3, "scope", "struct TokenSet with 6 elements")?;
        let client_id: String = read_required(
            value,
            4,
            "client_id",
            "struct TokenSet with 6 elements",
        )?;
        let server_url: String = read_required(
            value,
            5,
            "server_url",
            "struct TokenSet with 6 elements",
        )?;
        Ok(
            TokenSet {
                access_token,
                refresh_token,
                expires_at,
                scope,
                client_id,
                server_url,
            },
        )
    }
}

impl FromJson for ClientRegistration {
    open spec fn from_json(doc: json::Json) -> Option<ClientRegistrationView> {
        let shape = decode::record_shape(doc, 2);
        let client_id = decode::required_member::<String>(doc, 0, "client_id"@);
        let client_secret = decode::optional_member::<Option<String>>(
            doc,
            1,
            "client_secret"@,
            None,
        );
        if !shape || client_id is None || client_secret is None {
            None
        } else {
            Some(
                ClientRegistrationView {
                    client_id: client_id->Some_0,
                    client_secret: client_secret->Some_0,
                },
            )
        }
    }

    fn from_value(value: &Value) -> (result: Result<ClientRegistration, String>) {
        check_record(value, 2, "struct ClientRegistration")?;
        let client_id: String = read_required(
            value,
            0,
            "client_id",
            "struct ClientRegistration with 2 elements",
        )?;
        let client_secret: Option<String> = read_optional(value, 1, "client_secret", None)?;
        Ok(
            ClientRegistration {
                client_id,
                client_secret,
            },
        )
    }
}

/// `doc` has a text member of that name.
pub open spec fn has_text(doc: json::Json, name: Seq<char>) -> bool {
    &&& doc matches json::Json::Object(members)
    &&& members.dom().contains(name)
    &&& members[name] is Str
}

/// `doc` has the shape of a [`TokenSet`]: all six members are there, and are texts.
pub open spec fn token_set_shape(doc: json::Json) -> bool {
    &&& has_text(doc, "access_token"@)
    &&& has_text(doc, "refresh_token"@)
    &&& has_text(doc, "expires_at"@)
    &&& has_text(doc, "scope"@)
    &&& has_text(doc, "client_id"@)
    &&& has_text(doc, "server_url"@)
}

/// Whether a document has the shape of a [`TokenSet`].
pub fn is_valid_token_set(x: &Value) -> (valid: bool)
    ensures
        valid == token_set_shape(json::value_json(*x)),
{
    match open_value(x) {
        JsonRef::Object(_) => TokenSet::from_value(x).is_ok(),
        _ => false,
    }
}

} // verus!
