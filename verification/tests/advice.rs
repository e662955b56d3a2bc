//! What a caller can do about a failure.
use acosmi::shared::retry_advice::retry_reason_for_oauth_error;
use acosmi::shared::decode::FromJson;
use acosmi::shared::retry_advice::RetryAdvice;
use acosmi::shared::retry_advice::RetryAdviceReason;
use acosmi::shared::retry_advice::RETRY_ADVICE_REASONS;

#[test]
fn oauth_errors_have_reasons() {
    assert_eq!(
        retry_reason_for_oauth_error("insufficient_scope"),
        RetryAdviceReason::InsufficientScope
    );
    for error in
        ["invalid_token", "invalid_grant", "invalid_request", "access_denied", "unsupported_grant_type"]
    {
        assert_eq!(retry_reason_for_oauth_error(error), RetryAdviceReason::Failed);
    }
    for error in ["", "server_error", "Invalid_token"] {
        assert_eq!(retry_reason_for_oauth_error(error), RetryAdviceReason::Unknown);
    }
}

#[test]
fn every_reason_is_listed_once() {
    assert_eq!(RETRY_ADVICE_REASONS.len(), 11);
    for (i, reason) in RETRY_ADVICE_REASONS.iter().enumerate() {
        assert!(!RETRY_ADVICE_REASONS[..i].contains(reason));
    }
}

fn read<T: FromJson>(text: &str) -> Result<T, String> {
    T::from_value(&serde_json::from_str(text).unwrap())
}

#[test]
fn reasons_are_written_in_snake_case() {
    let names = [
        "unknown",
        "retrying",
        "failed",
        "gate_closed",
        "step_up_required",
        "tenant_mismatch",
        "insufficient_scope",
        "quota_exceeded",
        "provider_timeout",
        "local_verify_failed",
        "billing_preflight_failed",
    ];
    for (reason, name) in RETRY_ADVICE_REASONS.iter().zip(names) {
        assert_eq!(reason.as_text(), name);
        assert_eq!(RetryAdviceReason::named(name), Some(*reason));
        assert_eq!(read::<RetryAdviceReason>(&format!("\"{name}\"")), Ok(*reason));
        assert_eq!(read::<RetryAdviceReason>(&format!("{{\"{name}\":null}}")), Ok(*reason));
    }
    assert_eq!(RetryAdviceReason::named("GateClosed"), None);
    for bad in ["\"GateClosed\"", "1", "null", "{}", "{\"failed\":1}", "{\"failed\":null,\"unknown\":null}"] {
        assert!(read::<RetryAdviceReason>(bad).is_err(), "{bad}");
    }
}

#[test]
fn advice_is_read_in_camel_case() {
    let advice: RetryAdvice = read(
        r#"{"retryable":true,"retryAfter":7,"sameIdempotencyKeyRequired":true,"manualActionRequired":false,"reason":"quota_exceeded","userMessage":"u","developerMessage":"d","supportCode":"s","other":1}"#,
    )
    .unwrap();
    assert!(advice.retryable);
    assert_eq!(advice.retry_after, Some(7));
    assert!(advice.same_idempotency_key_required);
    assert!(!advice.manual_action_required);
    assert_eq!(advice.reason, RetryAdviceReason::QuotaExceeded);
    assert_eq!(advice.user_message.as_deref(), Some("u"));
    assert_eq!(advice.developer_message.as_deref(), Some("d"));
    assert_eq!(advice.support_code.as_deref(), Some("s"));
    let least = r#"{"retryable":false,"sameIdempotencyKeyRequired":false,"manualActionRequired":true,"reason":"failed"}"#;
    let advice: RetryAdvice = read(least).unwrap();
    assert_eq!(advice.retry_after, None);
    assert_eq!(advice.user_message, None);
    assert!(advice.manual_action_required);
    for missing in ["\"retryable\"", "\"sameIdempotencyKeyRequired\"", "\"manualActionRequired\"", "\"reason\""] {
        assert!(read::<RetryAdvice>(&least.replace(missing, "\"x\"")).is_err());
    }
    assert!(read::<RetryAdvice>(&least.replace("\"retryable\":false", "\"retryable\":0")).is_err());
    assert!(read::<RetryAdvice>("7").is_err());
}
