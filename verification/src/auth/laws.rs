//! What holds of everything that an authorization server answers, and of the tokens that are kept.
use crate::auth::types::is_valid_token_set;
use crate::auth::types::ClientRegistration;
use crate::auth::types::ServerMetadata;
use crate::auth::types::TokenResponse;
use crate::auth::types::TokenSet;
use crate::shared::decode::FromJson;
use crate::shared::documents;
use crate::shared::json;
use serde_json::Value;
use vstd::prelude::*;

verus! {

/// A token answer is read where its members are what they have to be, and each field then holds the
/// member of its own name.
pub proof fn law_token_response_is_read_by_name(v: Value, r: Result<TokenResponse, String>)
    requires
        call_ensures(TokenResponse::from_value, (&v,), r),
    ensures
        ({
            let doc = json::value_json(v);
            let access_token = documents::part(doc, 0, "access_token"@);
            let token_type = documents::part(doc, 1, "token_type"@);
            let expires_in = documents::part(doc, 2, "expires_in"@);
            let refresh_token = documents::part(doc, 3, "refresh_token"@);
            let scope = documents::part(doc, 4, "scope"@);
            &&& r is Ok <==> documents::is_record(doc, 5) && documents::is_text(access_token)
                && documents::is_text(token_type) && documents::is_count(expires_in) && (
            documents::absent(refresh_token) || documents::is_text(refresh_token)) && (
            documents::absent(scope) || documents::is_text(scope))
            &&& r matches Ok(t) ==> {
                &&& documents::says(access_token, t.access_token@)
                &&& documents::says(token_type, t.token_type@)
                &&& documents::counts(expires_in, t.expires_in)
                &&& documents::may_say(refresh_token, t.refresh_token.deep_view())
                &&& documents::may_say(scope, t.scope.deep_view())
            }
        }),
{
}

/// Kept tokens are read where all six members are texts, and each field then holds the member of its
/// own name.
pub proof fn law_token_set_is_read_by_name(v: Value, r: Result<TokenSet, String>)
    requires
        call_ensures(TokenSet::from_value, (&v,), r),
    ensures
        ({
            let doc = json::value_json(v);
            let access_token = documents::part(doc, 0, "access_token"@);
            let refresh_token = documents::part(doc, 1, "refresh_token"@);
            let expires_at = documents::part(doc, 2, "expires_at"@);
            let scope = documents::part(doc, 3, "scope"@);
            let client_id = documents::part(doc, 4, "client_id"@);
            let server_url = documents::part(doc, 5, "server_url"@);
            &&& r is Ok <==> documents::is_record(doc, 6) && documents::is_text(access_token)
                && documents::is_text(refresh_token) && documents::is_text(expires_at)
                && documents::is_text(scope) && documents::is_text(client_id)
                && documents::is_text(server_url)
            &&& r matches Ok(t) ==> {
                &&& documents::says(access_token, t.access_token@)
                &&& documents::says(refresh_token, t.refresh_token@)
                &&& documents::says(expires_at, t.expires_at@)
                &&& documents::says(scope, t.scope@)
                &&& documents::says(client_id, t.client_id@)
                &&& documents::says(server_url, t.server_url@)
            }
        }),
{
}

/// Metadata is read where its members are what they have to be, and each field then holds the member
/// of its own name; the scopes are those of the array, one for one.
pub proof fn law_metadata_is_read_by_name(v: Value, r: Result<ServerMetadata, String>)
    requires
        call_ensures(ServerMetadata::from_value, (&v,), r),
        r is Ok,
    ensures
        ({
            let doc = json::value_json(v);
            let t = r->Ok_0;
            let scopes = documents::part(doc, 5, "scopes_supported"@);
            &&& documents::is_record(doc, 6)
            &&& documents::says(documents::part(doc, 0, "issuer"@), t.issuer@)
            &&& documents::says(
                documents::part(doc, 1, "authorization_endpoint"@),
                t.authorization_endpoint@,
            )
            &&& documents::says(documents::part(doc, 2, "token_endpoint"@), t.token_endpoint@)
            &&& documents::says(
                documents::part(doc, 3, "revocation_endpoint"@),
                t.revocation_endpoint@,
            )
            &&& documents::says(
                documents::part(doc, 4, "registration_endpoint"@),
                t.registration_endpoint@,
            )
            &&& scopes is Some && scopes->Some_0 is Array
            &&& scopes->Some_0->Array_0.len() == t.scopes_supported@.len()
            &&& forall|i: int|
                0 <= i < t.scopes_supported@.len() ==> (#[trigger] scopes->Some_0->Array_0[i])
                    == json::Json::Str(t.scopes_supported@[i]@)
        }),
{
    let scopes = documents::part(json::value_json(v), 5, "scopes_supported"@)->Some_0->Array_0;
    let read = r->Ok_0.scopes_supported;
    crate::shared::decode_laws::law_items_are_read_one_by_one::<String>(scopes);
    assert forall|i: int| 0 <= i < read@.len() implies (#[trigger] scopes[i]) == json::Json::Str(
        read@[i]@,
    ) by {
        assert(read.deep_view()[i] == read@[i]@);
        assert(String::from_json(scopes[i]) == Some(read.deep_view()[i]));
    }
}

/// Metadata whose members are what they have to be is read.
pub proof fn law_metadata_is_read(v: Value, r: Result<ServerMetadata, String>)
    requires
        call_ensures(ServerMetadata::from_value, (&v,), r),
        ({
            let doc = json::value_json(v);
            let scopes = documents::part(doc, 5, "scopes_supported"@);
            &&& documents::is_record(doc, 6)
            &&& documents::is_text(documents::part(doc, 0, "issuer"@))
            &&& documents::is_text(documents::part(doc, 1, "authorization_endpoint"@))
            &&& documents::is_text(documents::part(doc, 2, "token_endpoint"@))
            &&& documents::is_text(documents::part(doc, 3, "revocation_endpoint"@))
            &&& documents::is_text(documents::part(doc, 4, "registration_endpoint"@))
            &&& scopes is Some && scopes->Some_0 is Array
            &&& forall|i: int|
                0 <= i < scopes->Some_0->Array_0.len() ==> (
                #[trigger] scopes->Some_0->Array_0[i]) is Str
        }),
    ensures
        r is Ok,
{
    let scopes = documents::part(json::value_json(v), 5, "scopes_supported"@)->Some_0->Array_0;
    crate::shared::decode_laws::law_items_are_read_one_by_one::<String>(scopes);
    assert forall|i: int| 0 <= i < scopes.len() implies String::from_json(
        #[trigger] scopes[i],
    ) is Some by {}
}

/// A registration is read where it has an identifier, and each field then holds the member of its own
/// name.
pub proof fn law_registration_is_read_by_name(v: Value, r: Result<ClientRegistration, String>)
    requires
        call_ensures(ClientRegistration::from_value, (&v,), r),
    ensures
        ({
            let doc = json::value_json(v);
            let client_id = documents::part(doc, 0, "client_id"@);
            let client_secret = documents::part(doc, 1, "client_secret"@);
            &&& r is Ok <==> documents::is_record(doc, 2) && documents::is_text(client_id) && (
            documents::absent(client_secret) || documents::is_text(client_secret))
            &&& r matches Ok(t) ==> {
                &&& documents::says(client_id, t.client_id@)
                &&& documents::may_say(client_secret, t.client_secret.deep_view())
            }
        }),
{
}

/// A document has the shape of kept tokens just where it is an object and all six members are texts,
/// whatever else it holds.
pub proof fn law_token_set_shape_is_six_texts(v: Value, valid: bool)
    requires
        call_ensures(is_valid_token_set, (&v,), valid),
    ensures
        ({
            let doc = json::value_json(v);
            valid <==> documents::is_text(documents::member(doc, "access_token"@))
                && documents::is_text(documents::member(doc, "refresh_token"@))
                && documents::is_text(documents::member(doc, "expires_at"@))
                && documents::is_text(documents::member(doc, "scope"@))
                && documents::is_text(documents::member(doc, "client_id"@))
                && documents::is_text(documents::member(doc, "server_url"@))
        }),
{
}

/// What tokens show of themselves does not depend on them, and shows not even how many fields they
/// have.
pub proof fn law_nothing_of_tokens_is_shown(
    a: TokenSet,
    b: TokenSet,
    shown_a: String,
    shown_b: String,
    answer_a: TokenResponse,
    answer_b: TokenResponse,
    answered_a: String,
    answered_b: String,
    registration_a: ClientRegistration,
    registration_b: ClientRegistration,
    registered_a: String,
    registered_b: String,
)
    requires
        call_ensures(TokenSet::redacted, (&a,), shown_a),
        call_ensures(TokenSet::redacted, (&b,), shown_b),
        call_ensures(TokenResponse::redacted, (&answer_a,), answered_a),
        call_ensures(TokenResponse::redacted, (&answer_b,), answered_b),
        call_ensures(ClientRegistration::redacted, (&registration_a,), registered_a),
        call_ensures(ClientRegistration::redacted, (&registration_b,), registered_b),
    ensures
        shown_a@ == shown_b@,
        shown_a@ == "TokenSet { .. }"@,
        answered_a@ == answered_b@,
        answered_a@ == "TokenResponse { .. }"@,
        registered_a@ == registered_b@,
        registered_a@ == "ClientRegistration { .. }"@,
{
}

/// A copy of tokens is the same in all that they hold.
pub proof fn law_copied_tokens_are_the_same(tokens: TokenSet, copy: TokenSet)
    requires
        call_ensures(TokenSet::clone, (&tokens,), copy),
    ensures
        copy.access_token@ == tokens.access_token@,
        copy.refresh_token@ == tokens.refresh_token@,
        copy.expires_at@ == tokens.expires_at@,
        copy.scope@ == tokens.scope@,
        copy.client_id@ == tokens.client_id@,
        copy.server_url@ == tokens.server_url@,
{
}

/// What tokens are seen to hold is what their fields hold, each under its own name.
pub proof fn law_tokens_are_seen_by_name(tokens: TokenSet)
    ensures
        tokens@.access_token == tokens.access_token@,
        tokens@.refresh_token == tokens.refresh_token@,
        tokens@.expires_at == tokens.expires_at@,
        tokens@.scope == tokens.scope@,
        tokens@.client_id == tokens.client_id@,
        tokens@.server_url == tokens.server_url@,
        tokens.deep_view() == tokens@,
{
}

} // verus!
