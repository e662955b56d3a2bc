//! The rules of an HTTP exchange: what a request is for, how long it may take, and what ends it.
use crate::shared::errors;
use crate::shared::errors::Error;
use crate::shared::errors::NetworkError;
use std::time::Duration;
use vstd::prelude::*;

verus! {

/// The budget of an ordinary exchange, in milliseconds.
pub const DEFAULT_JSON_TIMEOUT_MS: u64 = 30_000;

/// What a request is for. It describes the request and grants nothing.
#[derive(Debug, Clone, Copy, PartialEq, Eq, Structural)]
pub enum HttpPurpose {
    Api,
    Model,
    OAuthDiscovery,
    OAuthRegistration,
    OAuthToken,
    OAuthRevocation,
    Transfer,
}

/// How a response is read.
#[derive(Debug, Clone, Copy, PartialEq, Eq, Structural)]
pub enum HttpResponseMode {
    Buffered,
    Streaming,
}

/// The timeout of a buffered exchange covers headers and body, that of a streaming one the headers
/// only: how long a stream lives is for cancellation to decide.
#[derive(Debug, Clone, Copy)]
pub struct HttpContext {
    pub purpose: HttpPurpose,
    pub response_mode: HttpResponseMode,
    pub timeout: Duration,
}

/// The duration of so many milliseconds.
pub uninterp spec fn duration_of_millis(millis: u64) -> Duration;

/// `Duration::from_millis`.
#[verifier::external_body]
fn duration_from_millis(millis: u64) -> (duration: Duration)
    ensures
        duration == duration_of_millis(millis),
{
    Duration::from_millis(millis)
}

impl HttpContext {
    /// An exchange that ends with its body.
    pub fn buffered(purpose: HttpPurpose, timeout_ms: u64) -> (context: HttpContext)
        ensures
            context == (HttpContext {
                purpose,
                response_mode: HttpResponseMode::Buffered,
                timeout: duration_of_millis(timeout_ms),
            }),
    {
        HttpContext {
            purpose,
            response_mode: HttpResponseMode::Buffered,
            timeout: duration_from_millis(timeout_ms),
        }
    }

    /// An exchange whose body goes on.
    pub fn streaming(purpose: HttpPurpose, headers_timeout_ms: u64) -> (context: HttpContext)
        ensures
            context == (HttpContext {
                purpose,
                response_mode: HttpResponseMode::Streaming,
                timeout: duration_of_millis(headers_timeout_ms),
            }),
    {
        HttpContext {
            purpose,
            response_mode: HttpResponseMode::Streaming,
            timeout: duration_from_millis(headers_timeout_ms),
        }
    }
}

impl Default for HttpContext {
    fn default() -> (context: HttpContext)
        ensures
            context == (HttpContext {
                purpose: HttpPurpose::Api,
                response_mode: HttpResponseMode::Buffered,
                timeout: duration_of_millis(DEFAULT_JSON_TIMEOUT_MS),
            }),
    {
        HttpContext::buffered(HttpPurpose::Api, DEFAULT_JSON_TIMEOUT_MS)
    }
}

/// The failures of a transport. None carries a payload, so none can leak one.
#[derive(Debug, Clone, Copy, PartialEq, Eq, Structural)]
pub enum TransportError {
    Cancelled,
    Timeout,
    Connection,
    Rejected,
    InvalidRequest,
    Body,
    UnsupportedBody,
    UnsupportedWebSocket,
}

/// The stable code of a failure.
pub open spec fn transport_code(error: TransportError) -> Seq<char> {
    match error {
        TransportError::Cancelled => "http_transport_cancelled"@,
        TransportError::Timeout => "http_transport_timeout"@,
        TransportError::Connection => "http_transport_connection_failed"@,
        TransportError::Rejected => "http_transport_rejected"@,
        TransportError::InvalidRequest => "http_transport_invalid_request"@,
        TransportError::Body => "http_transport_body_failed"@,
        TransportError::UnsupportedBody => "http_transport_unsupported_body"@,
        TransportError::UnsupportedWebSocket => "http_transport_unsupported_websocket"@,
    }
}

/// What a failure of the transport is to the caller.
pub open spec fn transport_failure(error: TransportError) -> errors::ErrorView {
    errors::ErrorView::Network(
        errors::NetworkErrorView {
            op: "HTTP transport"@,
            url: ""@,
            message: transport_code(error),
            timeout: error == TransportError::Timeout,
            eof: error == TransportError::Connection,
        },
    )
}

impl TransportError {
    /// The stable code of the failure.
    pub fn code(self) -> (code: &'static str)
        ensures
            code@ == transport_code(self),
    {
        match self {
            TransportError::Cancelled => "http_transport_cancelled",
            TransportError::Timeout => "http_transport_timeout",
            TransportError::Connection => "http_transport_connection_failed",
            TransportError::Rejected => "http_transport_rejected",
            TransportError::InvalidRequest => "http_transport_invalid_request",
            TransportError::Body => "http_transport_body_failed",
            TransportError::UnsupportedBody => "http_transport_unsupported_body",
            TransportError::UnsupportedWebSocket => "http_transport_unsupported_websocket",
        }
    }
}

impl vstd::std_specs::convert::FromSpecImpl<TransportError> for Error {
    open spec fn obeys_from_spec() -> bool {
        false
    }

    open spec fn from_spec(value: TransportError) -> Error {
        arbitrary()
    }
}

impl From<TransportError> for Error {
    fn from(value: TransportError) -> (error: Error)
        ensures
            error@ == transport_failure(value),
    {
        let mut error: NetworkError = NetworkError::new("HTTP transport", "", value.code());
        error.timeout = value == TransportError::Timeout;
        error.eof = value == TransportError::Connection;
        Error::Network(error)
    }
}

/// What is sent as the body of a request: nothing where the request has none. One that is not there
/// as bytes cannot be sent.
pub fn request_body(body: Option<Option<&[u8]>>) -> (result: std::result::Result<
    Vec<u8>,
    TransportError,
>)
    ensures
        match body {
            None => result matches Ok(bytes) && bytes@ == Seq::<u8>::empty(),
            Some(Some(given)) => result matches Ok(bytes) && bytes@ == given@,
            Some(None) => result == Err::<Vec<u8>, TransportError>(TransportError::UnsupportedBody),
        },
{
    match body {
        None => Ok(Vec::new()),
        Some(Some(given)) => {
            let mut bytes: Vec<u8> = Vec::new();
            bytes.extend_from_slice(given);
            assert(bytes@ =~= given@);
            Ok(bytes)
        },
        Some(None) => Err(TransportError::UnsupportedBody),
    }
}

/// What a request that could not be sent failed of.
pub fn send_failure(is_timeout: bool, is_connect: bool) -> (error: TransportError)
    ensures
        error == (if is_timeout {
            TransportError::Timeout
        } else if is_connect {
            TransportError::Connection
        } else {
            TransportError::Rejected
        }),
{
    if is_timeout {
        TransportError::Timeout
    } else if is_connect {
        TransportError::Connection
    } else {
        TransportError::Rejected
    }
}

/// What a body that could not be read failed of.
pub fn body_failure(is_timeout: bool) -> (error: TransportError)
    ensures
        error == (if is_timeout {
            TransportError::Timeout
        } else {
            TransportError::Body
        }),
{
    if is_timeout {
        TransportError::Timeout
    } else {
        TransportError::Body
    }
}

/// What ends the wait for an operation that can be cancelled, if anything does.
#[derive(Debug, Clone, Copy, PartialEq, Eq, Structural)]
pub enum Verdict {
    /// The wait goes on.
    Wait,
    /// The result is there.
    Take,
    /// The operation was cancelled.
    Cancelled,
}

/// What ends the wait for an operation that can be cancelled: cancellation counts before a result
/// that is there.
pub fn cancel_verdict(cancelled: bool, ready: bool) -> (verdict: Verdict)
    ensures
        verdict == (if cancelled {
            Verdict::Cancelled
        } else if ready {
            Verdict::Take
        } else {
            Verdict::Wait
        }),
{
    if cancelled {
        Verdict::Cancelled
    } else if ready {
        Verdict::Take
    } else {
        Verdict::Wait
    }
}

} // verus!
