//! What a caller can do about a failure.
use crate::shared::decode;
use crate::shared::decode::check_record;
use crate::shared::decode::complain_kind;
use crate::shared::decode::read_optional;
use crate::shared::decode::read_required;
use crate::shared::decode::FromJson;
use crate::shared::json;
use crate::shared::json::members;
use crate::shared::json::open_value;
use crate::shared::json::JsonObject;
use crate::shared::json::JsonRef;
use crate::shared::text::same_text;
use serde_json::Value;
use vstd::prelude::*;

verus! {

/// Why a call failed, as far as remedies go.
#[derive(Debug, Clone, Copy, PartialEq, Eq, Structural)]
pub enum RetryAdviceReason {
    Unknown,
    Retrying,
    Failed,
    GateClosed,
    StepUpRequired,
    TenantMismatch,
    InsufficientScope,
    QuotaExceeded,
    ProviderTimeout,
    LocalVerifyFailed,
    BillingPreflightFailed,
}

/// Every reason, once.
pub const RETRY_ADVICE_REASONS: [RetryAdviceReason; 11] = [
    RetryAdviceReason::Unknown,
    RetryAdviceReason::Retrying,
    RetryAdviceReason::Failed,
    RetryAdviceReason::GateClosed,
    RetryAdviceReason::StepUpRequired,
    RetryAdviceReason::TenantMismatch,
    RetryAdviceReason::InsufficientScope,
    RetryAdviceReason::QuotaExceeded,
    RetryAdviceReason::ProviderTimeout,
    RetryAdviceReason::LocalVerifyFailed,
    RetryAdviceReason::BillingPreflightFailed,
];

/// Advice on what to do after a failure. It is laid over the retry policy and replaces nothing.
#[derive(Debug, Clone)]
pub struct RetryAdvice {
    /// Whether an automatic retry is worth it.
    pub retryable: bool,
    /// How long to wait before a retry, in seconds.
    pub retry_after: Option<i64>,
    /// Whether a retry has to carry the same idempotency key.
    pub same_idempotency_key_required: bool,
    /// Whether a person has to step in.
    pub manual_action_required: bool,
    pub reason: RetryAdviceReason,
    /// A message for the end user.
    pub user_message: Option<String>,
    /// A message for the developer.
    pub developer_message: Option<String>,
    /// The code that a support ticket is filed under.
    pub support_code: Option<String>,
}

/// What [`RetryAdvice`] holds.
#[verifier::ext_equal]
pub ghost struct RetryAdviceView {
    pub retryable: bool,
    pub retry_after: Option<i64>,
    pub same_idempotency_key_required: bool,
    pub manual_action_required: bool,
    pub reason: RetryAdviceReason,
    pub user_message: Option<Seq<char>>,
    pub developer_message: Option<Seq<char>>,
    pub support_code: Option<Seq<char>>,
}

impl DeepView for RetryAdvice {
    type V = RetryAdviceView;

    open spec fn deep_view(&self) -> RetryAdviceView {
        RetryAdviceView {
            retryable: self.retryable,
            retry_after: self.retry_after,
            same_idempotency_key_required: self.same_idempotency_key_required,
            manual_action_required: self.manual_action_required,
            reason: self.reason,
            user_message: self.user_message.deep_view(),
            developer_message: self.developer_message.deep_view(),
            support_code: self.support_code.deep_view(),
        }
    }
}

impl DeepView for RetryAdviceReason {
    type V = RetryAdviceReason;

    open spec fn deep_view(&self) -> RetryAdviceReason {
        *self
    }
}

/// The name of a reason in the wire format.
pub open spec fn reason_text(reason: RetryAdviceReason) -> Seq<char> {
    match reason {
        RetryAdviceReason::Unknown => "unknown"@,
        RetryAdviceReason::Retrying => "retrying"@,
        RetryAdviceReason::Failed => "failed"@,
        RetryAdviceReason::GateClosed => "gate_closed"@,
        RetryAdviceReason::StepUpRequired => "step_up_required"@,
        RetryAdviceReason::TenantMismatch => "tenant_mismatch"@,
        RetryAdviceReason::InsufficientScope => "insufficient_scope"@,
        RetryAdviceReason::QuotaExceeded => "quota_exceeded"@,
        RetryAdviceReason::ProviderTimeout => "provider_timeout"@,
        RetryAdviceReason::LocalVerifyFailed => "local_verify_failed"@,
        RetryAdviceReason::BillingPreflightFailed => "billing_preflight_failed"@,
    }
}

/// The reason with that name in the wire format.
pub open spec fn reason_named(name: Seq<char>) -> Option<RetryAdviceReason> {
    if name == "unknown"@ {
        Some(RetryAdviceReason::Unknown)
    } else if name == "retrying"@ {
        Some(RetryAdviceReason::Retrying)
    } else if name == "failed"@ {
        Some(RetryAdviceReason::Failed)
    } else if name == "gate_closed"@ {
        Some(RetryAdviceReason::GateClosed)
    } else if name == "step_up_required"@ {
        Some(RetryAdviceReason::StepUpRequired)
    } else if name == "tenant_mismatch"@ {
        Some(RetryAdviceReason::TenantMismatch)
    } else if name == "insufficient_scope"@ {
        Some(RetryAdviceReason::InsufficientScope)
    } else if name == "quota_exceeded"@ {
        Some(RetryAdviceReason::QuotaExceeded)
    } else if name == "provider_timeout"@ {
        Some(RetryAdviceReason::ProviderTimeout)
    } else if name == "local_verify_failed"@ {
        Some(RetryAdviceReason::LocalVerifyFailed)
    } else if name == "billing_preflight_failed"@ {
        Some(RetryAdviceReason::BillingPreflightFailed)
    } else {
        None
    }
}

/// A reason with that name, written as an object with one member that is `null`.
pub open spec fn names_reason(members: Map<Seq<char>, json::Json>, name: Seq<char>) -> bool {
    members == Map::<Seq<char>, json::Json>::empty().insert(name, json::Json::Null)
}

impl RetryAdviceReason {
    /// The name of the reason in the wire format.
    pub fn as_text(self) -> (name: &'static str)
        ensures
            name@ == reason_text(self),
    {
        match self {
            RetryAdviceReason::Unknown => "unknown",
            RetryAdviceReason::Retrying => "retrying",
            RetryAdviceReason::Failed => "failed",
            RetryAdviceReason::GateClosed => "gate_closed",
            RetryAdviceReason::StepUpRequired => "step_up_required",
            RetryAdviceReason::TenantMismatch => "tenant_mismatch",
            RetryAdviceReason::InsufficientScope => "insufficient_scope",
            RetryAdviceReason::QuotaExceeded => "quota_exceeded",
            RetryAdviceReason::ProviderTimeout => "provider_timeout",
            RetryAdviceReason::LocalVerifyFailed => "local_verify_failed",
            RetryAdviceReason::BillingPreflightFailed => "billing_preflight_failed",
        }
    }

    /// The reason with that name in the wire format.
    pub fn named(name: &str) -> (reason: Option<RetryAdviceReason>)
        ensures
            reason == reason_named(name@),
    {
        if same_text(name, "unknown") {
            Some(RetryAdviceReason::Unknown)
        } else if same_text(name, "retrying") {
            Some(RetryAdviceReason::Retrying)
        } else if same_text(name, "failed") {
            Some(RetryAdviceReason::Failed)
        } else if same_text(name, "gate_closed") {
            Some(RetryAdviceReason::GateClosed)
        } else if same_text(name, "step_up_required") {
            Some(RetryAdviceReason::StepUpRequired)
        } else if same_text(name, "tenant_mismatch") {
            Some(RetryAdviceReason::TenantMismatch)
        } else if same_text(name, "insufficient_scope") {
            Some(RetryAdviceReason::InsufficientScope)
        } else if same_text(name, "quota_exceeded") {
            Some(RetryAdviceReason::QuotaExceeded)
        } else if same_text(name, "provider_timeout") {
            Some(RetryAdviceReason::ProviderTimeout)
        } else if same_text(name, "local_verify_failed") {
            Some(RetryAdviceReason::LocalVerifyFailed)
        } else if same_text(name, "billing_preflight_failed") {
            Some(RetryAdviceReason::BillingPreflightFailed)
        } else {
            None
        }
    }
}

fn only_null(object: &JsonObject) -> (name: Option<String>)
    ensures
        match name {
            Some(n) => names_reason(json::object_json(*object), n@),
            None => forall|n: Seq<char>| !names_reason(json::object_json(*object), n),
        },
{
    let ghost held = json::object_json(*object);
    let entries: Vec<(String, Value)> = members(object);
    if entries.len() == 1 {
        let key: String = entries[0].0.clone();
        assert forall|n: Seq<char>| #[trigger] held.dom().contains(n) implies n == key@ by {
            let i = choose|i: int| 0 <= i < entries@.len() && (#[trigger] entries@[i]).0@ == n;
            assert(entries@[i].0@ == n);
        }
        assert(held.dom().contains(entries@[0].0@));
        match open_value(&entries[0].1) {
            JsonRef::Null => {
                assert(held =~= Map::<Seq<char>, json::Json>::empty().insert(
                    key@,
                    json::Json::Null,
                ));
                return Some(key);
            },
            _ => {
                assert forall|n: Seq<char>| !names_reason(held, n) by {
                    if names_reason(held, n) {
                        assert(held.dom().contains(n));
                    }
                }
                return None;
            },
        }
    }
    assert forall|n: Seq<char>| !names_reason(held, n) by {
        if names_reason(held, n) {
            assert(held.dom().contains(n));
            let i = choose|i: int| 0 <= i < entries@.len() && (#[trigger] entries@[i]).0@ == n;
            let j: int = if i == 0 {
                1
            } else {
                0
            };
            assert(entries@[i].0@ == n);
            assert(held.dom().contains(entries@[j].0@));
            assert(entries@[j].0@ == n);
        }
    }
    None
}

impl FromJson for RetryAdviceReason {
    open spec fn from_json(doc: json::Json) -> Option<RetryAdviceReason> {
        match doc {
            json::Json::Str(name) => reason_named(name),
            json::Json::Object(members) => if exists|name: Seq<char>| names_reason(members, name) {
                reason_named(choose|name: Seq<char>| names_reason(members, name))
            } else {
                None
            },
            _ => None,
        }
    }

    fn from_value(value: &Value) -> (result: Result<RetryAdviceReason, String>) {
        let name: Option<String> = match open_value(value) {
            JsonRef::Str(name) => Some(name.to_string()),
            JsonRef::Object(object) => {
                let name: Option<String> = only_null(object);
                proof {
                    if name is Some {
                        let n = name->Some_0;
                        let held = json::object_json(*object);
                        let chosen = choose|m: Seq<char>| names_reason(held, m);
                        assert(names_reason(held, n@));
                        assert(held.dom().contains(chosen));
                        assert(chosen == n@);
                    }
                }
                name
            },
            _ => None,
        };
        match name {
            Some(name) => match RetryAdviceReason::named(name.as_str()) {
                Some(reason) => Ok(reason),
                None => Err("unknown variant `".to_string().concat(name.as_str()).concat("`")),
            },
            None => Err(complain_kind(value, "string or map")),
        }
    }
}

impl FromJson for RetryAdvice {
    open spec fn from_json(doc: json::Json) -> Option<RetryAdviceView> {
        let shape = decode::record_shape(doc, 8);
        let retryable = decode::required_member::<bool>(doc, 0, "retryable"@);
        let retry_after = decode::optional_member::<Option<i64>>(doc, 1, "retryAfter"@, None);
        let same_idempotency_key_required = decode::required_member::<bool>(
            doc,
            2,
            "sameIdempotencyKeyRequired"@,
        );
        let manual_action_required = decode::required_member::<bool>(
            doc,
            3,
            "manualActionRequired"@,
        );
        let reason = decode::required_member::<RetryAdviceReason>(doc, 4, "reason"@);
        let user_message = decode::optional_member::<Option<String>>(doc, 5, "userMessage"@, None);
        let developer_message = decode::optional_member::<Option<String>>(
            doc,
            6,
            "developerMessage"@,
            None,
        );
        let support_code = decode::optional_member::<Option<String>>(doc, 7, "supportCode"@, None);
        if !shape || retryable is None || retry_after is None || same_idempotency_key_required is None
            || manual_action_required is None || reason is None || user_message is None
            || developer_message is None || support_code is None {
            None
        } else {
            Some(
                RetryAdviceView {
                    retryable: retryable->Some_0,
                    retry_after: retry_after->Some_0,
                    same_idempotency_key_required: same_idempotency_key_required->Some_0,
                    manual_action_required: manual_action_required->Some_0,
                    reason: reason->Some_0,
                    user_message: user_message->Some_0,
                    developer_message: developer_message->Some_0,
                    support_code: support_code->Some_0,
                },
            )
        }
    }

    fn from_value(value: &Value) -> (result: Result<RetryAdvice, String>) {
        let record: &str = "struct RetryAdvice with 8 elements";
        check_record(value, 8, "struct RetryAdvice")?;
        let retryable: bool = read_required(value, 0, "retryable", record)?;
        let retry_after: Option<i64> = read_optional(value, 1, "retryAfter", None)?;
        let same_idempotency_key_required: bool = read_required(
            value,
            2,
            "sameIdempotencyKeyRequired",
            record,
        )?;
        let manual_action_required: bool = read_required(value, 3, "manualActionRequired", record)?;
        let reason: RetryAdviceReason = read_required(value, 4, "reason", record)?;
        let user_message: Option<String> = read_optional(value, 5, "userMessage", None)?;
        let developer_message: Option<String> = read_optional(value, 6, "developerMessage", None)?;
        let support_code: Option<String> = read_optional(value, 7, "supportCode", None)?;
        Ok(
            RetryAdvice {
                retryable,
                retry_after,
                same_idempotency_key_required,
                manual_action_required,
                reason,
                user_message,
                developer_message,
                support_code,
            },
        )
    }
}

/// The reason behind a standard OAuth error.
pub open spec fn oauth_error_reason(oauth_error: Seq<char>) -> RetryAdviceReason {
    if oauth_error == "insufficient_scope"@ {
        RetryAdviceReason::InsufficientScope
    } else if oauth_error == "invalid_token"@ || oauth_error == "invalid_grant"@ || oauth_error
        == "invalid_request"@ || oauth_error == "access_denied"@ || oauth_error
        == "unsupported_grant_type"@ {
        RetryAdviceReason::Failed
    } else {
        RetryAdviceReason::Unknown
    }
}

/// The reason behind a standard OAuth error; `Unknown` for any other.
pub fn retry_reason_for_oauth_error(oauth_error: &str) -> (reason: RetryAdviceReason)
    ensures
        reason == oauth_error_reason(oauth_error@),
{
    if same_text(oauth_error, "insufficient_scope") {
        RetryAdviceReason::InsufficientScope
    } else if same_text(oauth_error, "invalid_token") || same_text(oauth_error, "invalid_grant")
        || same_text(oauth_error, "invalid_request") || same_text(oauth_error, "access_denied")
        || same_text(oauth_error, "unsupported_grant_type") {
        RetryAdviceReason::Failed
    } else {
        RetryAdviceReason::Unknown
    }
}

/// The list of reasons holds every reason.
pub proof fn law_every_reason_is_listed(reason: RetryAdviceReason)
    ensures
        RETRY_ADVICE_REASONS@.contains(reason),
        RETRY_ADVICE_REASONS@.no_duplicates(),
{
    let n: int = match reason {
        RetryAdviceReason::Unknown => 0,
        RetryAdviceReason::Retrying => 1,
        RetryAdviceReason::Failed => 2,
        RetryAdviceReason::GateClosed => 3,
        RetryAdviceReason::StepUpRequired => 4,
        RetryAdviceReason::TenantMismatch => 5,
        RetryAdviceReason::InsufficientScope => 6,
        RetryAdviceReason::QuotaExceeded => 7,
        RetryAdviceReason::ProviderTimeout => 8,
        RetryAdviceReason::LocalVerifyFailed => 9,
        RetryAdviceReason::BillingPreflightFailed => 10,
    };
    assert(RETRY_ADVICE_REASONS@[n] == reason);
}

/// A reason is read from the name that it is written under.
pub proof fn law_reasons_are_read_by_their_names(reason: RetryAdviceReason)
    ensures
        reason_named(reason_text(reason)) == Some(reason),
        RetryAdviceReason::from_json(json::Json::Str(reason_text(reason))) == Some(reason),
{
    reveal_strlit("unknown");
    reveal_strlit("retrying");
    reveal_strlit("failed");
    reveal_strlit("gate_closed");
    reveal_strlit("step_up_required");
    reveal_strlit("tenant_mismatch");
    reveal_strlit("insufficient_scope");
    reveal_strlit("quota_exceeded");
    reveal_strlit("provider_timeout");
    reveal_strlit("local_verify_failed");
    reveal_strlit("billing_preflight_failed");
    assert("failed"@.len() == 6 && "failed"@[0] == 'f');
    assert("unknown"@.len() == 7 && "unknown"@[0] == 'u');
    assert("retrying"@.len() == 8 && "retrying"@[0] == 'r');
    assert("gate_closed"@.len() == 11 && "gate_closed"@[0] == 'g');
    assert("quota_exceeded"@.len() == 14 && "quota_exceeded"@[0] == 'q');
    assert("tenant_mismatch"@.len() == 15 && "tenant_mismatch"@[0] == 't');
    assert("step_up_required"@.len() == 16 && "step_up_required"@[0] == 's');
    assert("provider_timeout"@.len() == 16 && "provider_timeout"@[0] == 'p');
    assert("insufficient_scope"@.len() == 18 && "insufficient_scope"@[0] == 'i');
    assert("local_verify_failed"@.len() == 19 && "local_verify_failed"@[0] == 'l');
    assert("billing_preflight_failed"@.len() == 24 && "billing_preflight_failed"@[0] == 'b');
}

} // verus!
