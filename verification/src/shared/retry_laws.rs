//! What holds of every advice.
use crate::shared::decode::FromJson;
use crate::shared::documents;
use crate::shared::json;
use crate::shared::retry_advice;
use crate::shared::retry_advice::retry_reason_for_oauth_error;
use crate::shared::retry_advice::RetryAdvice;
use crate::shared::retry_advice::RetryAdviceReason;
use serde_json::Value;
use vstd::prelude::*;

verus! {

/// The reason goes by that name on the wire.
pub open spec fn goes_by(reason: RetryAdviceReason, name: Seq<char>) -> bool {
    &&& reason is Unknown ==> name == "unknown"@
    &&& reason is Retrying ==> name == "retrying"@
    &&& reason is Failed ==> name == "failed"@
    &&& reason is GateClosed ==> name == "gate_closed"@
    &&& reason is StepUpRequired ==> name == "step_up_required"@
    &&& reason is TenantMismatch ==> name == "tenant_mismatch"@
    &&& reason is InsufficientScope ==> name == "insufficient_scope"@
    &&& reason is QuotaExceeded ==> name == "quota_exceeded"@
    &&& reason is ProviderTimeout ==> name == "provider_timeout"@
    &&& reason is LocalVerifyFailed ==> name == "local_verify_failed"@
    &&& reason is BillingPreflightFailed ==> name == "billing_preflight_failed"@
}

/// A reason is written under the name that it goes by, and read from that name and from no other.
pub proof fn law_reasons_go_by_their_names(
    reason: RetryAdviceReason,
    written: &'static str,
    name: &str,
    read: Option<RetryAdviceReason>,
)
    requires
        call_ensures(RetryAdviceReason::as_text, (reason,), written),
        call_ensures(RetryAdviceReason::named, (name,), read),
    ensures
        goes_by(reason, written@),
        name@ == written@ ==> read == Some(reason),
        read is Some ==> goes_by(read->Some_0, name@),
        goes_by(reason, name@) ==> read == Some(reason),
{
    retry_advice::law_reasons_are_read_by_their_names(reason);
}

/// A reason is read from a text that is its name, and as well from an object that has that name and
/// nothing under it; from nothing else.
pub proof fn law_reason_is_read_from_its_name(v: Value, r: Result<RetryAdviceReason, String>)
    requires
        call_ensures(RetryAdviceReason::from_value, (&v,), r),
    ensures
        r matches Ok(reason) ==> exists|name: Seq<char>| #[trigger]
            goes_by(reason, name) && (json::value_json(v) == json::Json::Str(name)
                || json::value_json(v) == json::Json::Object(map![name => json::Json::Null])),
        forall|reason: RetryAdviceReason, name: Seq<char>|
            #![trigger goes_by(reason, name)]
            goes_by(reason, name) && (json::value_json(v) == json::Json::Str(name)
                || json::value_json(v) == json::Json::Object(map![name => json::Json::Null])) ==> r
                == Ok::<RetryAdviceReason, String>(reason),
{
    let doc = json::value_json(v);
    if doc is Object && exists|name: Seq<char>|
        retry_advice::names_reason(doc->Object_0, name) {
        let name = choose|name: Seq<char>| retry_advice::names_reason(doc->Object_0, name);
        assert(doc->Object_0 =~= map![name => json::Json::Null]);
        if r is Ok {
            assert(goes_by(r->Ok_0, name));
        }
    }
    if r is Ok && doc is Str {
        assert(goes_by(r->Ok_0, doc->Str_0));
    }
    assert forall|reason: RetryAdviceReason, name: Seq<char>|
        #![trigger goes_by(reason, name)]
        goes_by(reason, name) && (doc == json::Json::Str(name) || doc == json::Json::Object(
            map![name => json::Json::Null],
        )) implies r == Ok::<RetryAdviceReason, String>(reason) by {
        retry_advice::law_reasons_are_read_by_their_names(reason);
        assert(retry_advice::reason_text(reason) == name);
        if doc is Object {
            let members = doc->Object_0;
            assert(members =~= Map::<Seq<char>, json::Json>::empty().insert(
                name,
                json::Json::Null,
            ));
            assert(retry_advice::names_reason(members, name));
            let chosen = choose|n: Seq<char>| retry_advice::names_reason(members, n);
            assert(members.dom().contains(chosen));
            assert(chosen == name);
        }
    }
}

/// The part is a truth value.
pub open spec fn is_truth(part: Option<json::Json>) -> bool {
    part is Some && part->Some_0 is Bool
}

/// Advice is read just where each part is what it has to be, and each field then holds the part of its
/// own name.
pub proof fn law_advice_is_read_by_name(v: Value, r: Result<RetryAdvice, String>)
    requires
        call_ensures(RetryAdvice::from_value, (&v,), r),
    ensures
        ({
            let doc = json::value_json(v);
            let retryable = documents::part(doc, 0, "retryable"@);
            let retry_after = documents::part(doc, 1, "retryAfter"@);
            let same_key = documents::part(doc, 2, "sameIdempotencyKeyRequired"@);
            let manual = documents::part(doc, 3, "manualActionRequired"@);
            let reason = documents::part(doc, 4, "reason"@);
            let user = documents::part(doc, 5, "userMessage"@);
            let developer = documents::part(doc, 6, "developerMessage"@);
            let support = documents::part(doc, 7, "supportCode"@);
            &&& r is Ok <==> documents::is_record(doc, 8) && is_truth(retryable) && (
            documents::absent(retry_after) || documents::is_count(retry_after)) && is_truth(same_key)
                && is_truth(manual) && reason is Some && RetryAdviceReason::from_json(
                reason->Some_0,
            ) is Some && (documents::absent(user) || documents::is_text(user)) && (
            documents::absent(developer) || documents::is_text(developer)) && (documents::absent(
                support,
            ) || documents::is_text(support))
            &&& r matches Ok(t) ==> {
                &&& retryable == Some(json::Json::Bool(t.retryable))
                &&& documents::may_count(retry_after, t.retry_after)
                &&& same_key == Some(json::Json::Bool(t.same_idempotency_key_required))
                &&& manual == Some(json::Json::Bool(t.manual_action_required))
                &&& RetryAdviceReason::from_json(reason->Some_0) == Some(t.reason)
                &&& documents::may_say(user, t.user_message.deep_view())
                &&& documents::may_say(developer, t.developer_message.deep_view())
                &&& documents::may_say(support, t.support_code.deep_view())
            }
        }),
{
}

/// A scope that does not suffice is one reason; the other five standard errors are failures; any other
/// text says nothing.
pub proof fn law_oauth_errors_have_reasons(oauth_error: &str, reason: RetryAdviceReason)
    requires
        call_ensures(retry_reason_for_oauth_error, (oauth_error,), reason),
    ensures
        reason is InsufficientScope <==> oauth_error@ == "insufficient_scope"@,
        reason is Failed <==> oauth_error@ == "invalid_token"@ || oauth_error@ == "invalid_grant"@
            || oauth_error@ == "invalid_request"@ || oauth_error@ == "access_denied"@ || oauth_error@
            == "unsupported_grant_type"@,
        reason is Unknown <==> !(reason is InsufficientScope) && !(reason is Failed),
{
    reveal_strlit("insufficient_scope");
    reveal_strlit("invalid_token");
    reveal_strlit("invalid_grant");
    reveal_strlit("invalid_request");
    reveal_strlit("access_denied");
    reveal_strlit("unsupported_grant_type");
    assert("insufficient_scope"@.len() == 18);
    assert("invalid_token"@.len() == 13);
    assert("invalid_grant"@.len() == 13);
    assert("invalid_request"@.len() == 15);
    assert("access_denied"@.len() == 13);
    assert("unsupported_grant_type"@.len() == 22);
}

} // verus!
