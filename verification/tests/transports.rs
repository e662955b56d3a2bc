//! The rules of an HTTP exchange.
use acosmi::client::exchange::Arrival;
use acosmi::client::exchange::Exchange;
use acosmi::client::exchange::Progress;
use acosmi::client::transport::body_failure;
use acosmi::client::transport::cancel_verdict;
use acosmi::client::transport::request_body;
use acosmi::client::transport::send_failure;
use acosmi::client::transport::HttpContext;
use acosmi::client::transport::HttpPurpose;
use acosmi::client::transport::HttpResponseMode;
use acosmi::client::transport::TransportError;
use acosmi::client::transport::Verdict;
use acosmi::shared::errors::Error;
use std::time::Duration;

#[test]
fn context_carries_its_budget() {
    let context = HttpContext::buffered(HttpPurpose::Model, 660_000);
    assert_eq!(context.purpose, HttpPurpose::Model);
    assert_eq!(context.response_mode, HttpResponseMode::Buffered);
    assert_eq!(context.timeout, Duration::from_secs(660));
    let context = HttpContext::streaming(HttpPurpose::Api, 1);
    assert_eq!(context.purpose, HttpPurpose::Api);
    assert_eq!(context.response_mode, HttpResponseMode::Streaming);
    assert_eq!(context.timeout, Duration::from_millis(1));
    let context = HttpContext::default();
    assert_eq!(context.purpose, HttpPurpose::Api);
    assert_eq!(context.response_mode, HttpResponseMode::Buffered);
    assert_eq!(context.timeout, Duration::from_secs(30));
}

#[test]
fn transport_errors_have_stable_codes() {
    for (error, code) in [
        (TransportError::Cancelled, "http_transport_cancelled"),
        (TransportError::Timeout, "http_transport_timeout"),
        (TransportError::Connection, "http_transport_connection_failed"),
        (TransportError::Rejected, "http_transport_rejected"),
        (TransportError::InvalidRequest, "http_transport_invalid_request"),
        (TransportError::Body, "http_transport_body_failed"),
        (TransportError::UnsupportedBody, "http_transport_unsupported_body"),
        (TransportError::UnsupportedWebSocket, "http_transport_unsupported_websocket"),
    ] {
        assert_eq!(error.code(), code);
        match Error::from(error) {
            Error::Network(network) => {
                assert_eq!(network.op, "HTTP transport");
                assert_eq!(network.url, "");
                assert_eq!(network.message, code);
                assert_eq!(network.timeout, error == TransportError::Timeout);
                assert_eq!(network.eof, error == TransportError::Connection);
            }
            other => panic!("{other:?}"),
        }
    }
}

#[test]
fn body_is_sent_as_its_bytes() {
    assert_eq!(request_body(None), Ok(vec![]));
    assert_eq!(request_body(Some(Some(&b"abc"[..]))), Ok(vec![97, 98, 99]));
    assert_eq!(request_body(Some(None)), Err(TransportError::UnsupportedBody));
}

#[test]
fn failures_are_told_apart() {
    assert_eq!(send_failure(true, true), TransportError::Timeout);
    assert_eq!(send_failure(false, true), TransportError::Connection);
    assert_eq!(send_failure(false, false), TransportError::Rejected);
    assert_eq!(body_failure(true), TransportError::Timeout);
    assert_eq!(body_failure(false), TransportError::Body);
}

#[test]
fn cancellation_counts_before_a_result() {
    assert_eq!(cancel_verdict(true, true), Verdict::Cancelled);
    assert_eq!(cancel_verdict(true, false), Verdict::Cancelled);
    assert_eq!(cancel_verdict(false, true), Verdict::Take);
    assert_eq!(cancel_verdict(false, false), Verdict::Wait);
}

fn turn(e: &mut Exchange, cancelled: bool, expired: bool, arrival: Arrival) -> Progress {
    match e.interrupt(cancelled, expired) {
        Some(error) => Progress::Fail(error),
        None => e.arrive(arrival, expired),
    }
}

#[test]
fn exchange_goes_from_headers_to_the_end() {
    for mode in [HttpResponseMode::Buffered, HttpResponseMode::Streaming] {
        let mut e = Exchange::new(mode);
        assert_eq!(turn(&mut e, false, false, Arrival::Nothing), Progress::Wait);
        assert_eq!(turn(&mut e, false, true, Arrival::Headers), Progress::Headers);
        assert_eq!(turn(&mut e, false, false, Arrival::Nothing), Progress::Wait);
        assert_eq!(turn(&mut e, false, false, Arrival::Chunk), Progress::Chunk);
        assert_eq!(turn(&mut e, false, false, Arrival::Chunk), Progress::Chunk);
        assert_eq!(turn(&mut e, false, false, Arrival::End), Progress::End);
        assert_eq!(turn(&mut e, true, true, Arrival::Chunk), Progress::End);
    }
}

#[test]
fn cancellation_ends_every_exchange() {
    for arrival in [Arrival::Nothing, Arrival::Headers] {
        let mut e = Exchange::new(HttpResponseMode::Streaming);
        let cancelled = Progress::Fail(TransportError::Cancelled);
        assert_eq!(turn(&mut e, true, true, arrival), cancelled);
        assert_eq!(turn(&mut e, false, false, Arrival::Headers), Progress::End);
    }
    let mut e = Exchange::new(HttpResponseMode::Buffered);
    assert_eq!(turn(&mut e, false, false, Arrival::Headers), Progress::Headers);
    assert_eq!(turn(&mut e, true, true, Arrival::Chunk), Progress::Fail(TransportError::Cancelled));
    assert_eq!(turn(&mut e, false, false, Arrival::Chunk), Progress::End);
}

#[test]
fn buffered_budget_covers_the_body_and_streaming_budget_only_the_headers() {
    let timeout = Progress::Fail(TransportError::Timeout);
    for mode in [HttpResponseMode::Buffered, HttpResponseMode::Streaming] {
        let mut e = Exchange::new(mode);
        assert_eq!(turn(&mut e, false, true, Arrival::Nothing), timeout);
        let mut e = Exchange::new(mode);
        assert_eq!(turn(&mut e, false, false, Arrival::Headers), Progress::Headers);
        let expected =
            if mode == HttpResponseMode::Buffered { timeout } else { Progress::Chunk };
        assert_eq!(turn(&mut e, false, true, Arrival::Chunk), expected);
    }
}

#[test]
fn failure_of_the_transport_ends_the_exchange() {
    let failed = Arrival::Failed(TransportError::Rejected);
    let mut e = Exchange::new(HttpResponseMode::Streaming);
    assert_eq!(turn(&mut e, false, true, failed), Progress::Fail(TransportError::Rejected));
    assert_eq!(turn(&mut e, false, false, Arrival::Headers), Progress::End);
}
