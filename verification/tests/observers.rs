//! Observers of model requests.
use acosmi::client::observer::read_gateway_request_id;
use acosmi::client::observer::request_id_in;
use acosmi::client::observer::ChatOptions;
use acosmi::client::observer::GATEWAY_REQUEST_ID_HEADER;
use http::HeaderMap;

#[test]
fn billing_id_rejects_absence_duplicates_bad_values_and_other_id_sources() {
    let mut headers = HeaderMap::new();
    headers.insert("X-Request-ID", "transport-only".parse().unwrap());
    assert_eq!(read_gateway_request_id(&headers), None);
    for raw in ["", " ", "id id", "a,b", "a/b", &"x".repeat(257)] {
        headers.insert(GATEWAY_REQUEST_ID_HEADER, raw.parse().unwrap());
        assert_eq!(read_gateway_request_id(&headers), None);
    }
    headers.insert(GATEWAY_REQUEST_ID_HEADER, " bill_123-abc.4:5 ".parse().unwrap());
    assert_eq!(read_gateway_request_id(&headers), Some("bill_123-abc.4:5"));
    headers.append(GATEWAY_REQUEST_ID_HEADER, "second".parse().unwrap());
    assert_eq!(read_gateway_request_id(&headers), None);
}

#[test]
fn longest_id_is_accepted() {
    let longest = "x".repeat(256);
    assert_eq!(request_id_in(&vec![Some(longest.as_str())]), Some(longest.as_str()));
    let longer = "x".repeat(257);
    assert_eq!(request_id_in(&vec![Some(longer.as_str())]), None);
}

#[test]
fn value_that_is_no_text_gives_no_id() {
    assert_eq!(request_id_in(&vec![None]), None);
    assert_eq!(request_id_in(&vec![]), None);
    let mut headers = HeaderMap::new();
    headers.insert(GATEWAY_REQUEST_ID_HEADER, http::HeaderValue::from_bytes(b"a\xffb").unwrap());
    assert_eq!(read_gateway_request_id(&headers), None);
}

#[test]
fn reported_id_is_reported_once() {
    let mut headers = HeaderMap::new();
    headers.insert(GATEWAY_REQUEST_ID_HEADER, "id-1".parse().unwrap());
    let mut options: ChatOptions<&str, &str> =
        ChatOptions { on_upstream_activity: Some("activity"), on_gateway_request_id: Some("id") };
    assert_eq!(options.response(&headers), Some(("id", "id-1")));
    assert_eq!(options.response(&headers), None);
    assert_eq!(options.on_upstream_activity, Some("activity"));
}

#[test]
fn observer_is_given_up_without_an_id() {
    let mut options: ChatOptions<&str, &str> =
        ChatOptions { on_upstream_activity: None, on_gateway_request_id: Some("id") };
    assert_eq!(options.response(&HeaderMap::new()), None);
    assert_eq!(options.on_gateway_request_id, None);
}

#[test]
fn observer_that_panicked_is_not_called_again() {
    let mut options: ChatOptions<&str, &str> =
        ChatOptions { on_upstream_activity: Some("activity"), on_gateway_request_id: None };
    let callback = options.activity().unwrap();
    options.settle_activity(callback, false);
    let callback = options.activity().unwrap();
    options.settle_activity(callback, true);
    assert_eq!(options.activity(), None);
}

#[test]
fn options_are_empty_by_default() {
    let options: ChatOptions<&str, &str> = ChatOptions::default();
    assert!(options.on_upstream_activity.is_none());
    assert!(options.on_gateway_request_id.is_none());
}

#[test]
fn options_can_be_cloned() {
    let options: ChatOptions<&str, &str> =
        ChatOptions { on_upstream_activity: Some("activity"), on_gateway_request_id: None };
    let copy = options.clone();
    assert_eq!(copy.on_upstream_activity, options.on_upstream_activity);
    assert_eq!(copy.on_gateway_request_id, None);
}
