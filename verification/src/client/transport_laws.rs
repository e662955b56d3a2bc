//! What holds of every exchange with a gateway, of what ends it, and of the codes of what goes wrong.
use crate::auth::types::TokenSet;
use crate::client::authority::tokens_equal;
use crate::client::authority::AuthorityResult;
use crate::client::authority::StrictState;
use crate::client::authority::TokenAuthorityError;
use crate::client::exchange::Arrival;
use crate::client::exchange::Exchange;
use crate::client::exchange::Progress;
use crate::client::exchange::Waiting;
use crate::client::transport;
use crate::client::transport::body_failure;
use crate::client::transport::cancel_verdict;
use crate::client::transport::request_body;
use crate::client::transport::send_failure;
use crate::client::transport::HttpContext;
use crate::client::transport::HttpPurpose;
use crate::client::transport::HttpResponseMode;
use crate::client::transport::TransportError;
use crate::client::transport::Verdict;
use crate::shared::errors::Error;
use vstd::prelude::*;

verus! {

/// The failure goes by that code.
pub open spec fn transport_code_is(error: TransportError, code: Seq<char>) -> bool {
    &&& error is Cancelled ==> code == "http_transport_cancelled"@
    &&& error is Timeout ==> code == "http_transport_timeout"@
    &&& error is Connection ==> code == "http_transport_connection_failed"@
    &&& error is Rejected ==> code == "http_transport_rejected"@
    &&& error is InvalidRequest ==> code == "http_transport_invalid_request"@
    &&& error is Body ==> code == "http_transport_body_failed"@
    &&& error is UnsupportedBody ==> code == "http_transport_unsupported_body"@
    &&& error is UnsupportedWebSocket ==> code == "http_transport_unsupported_websocket"@
}

/// A failure of the transport goes by its code, and is told as a failure of the network that says the
/// code and nothing more: no URL, a timeout just where it is one, and a lost connection just where
/// there was none.
pub proof fn law_transport_failures_say_their_code(
    failure: TransportError,
    code: &'static str,
    error: Error,
)
    requires
        call_ensures(TransportError::code, (failure,), code),
        call_ensures(<Error as From<TransportError>>::from, (failure,), error),
    ensures
        transport_code_is(failure, code@),
        error is Network,
        error->Network_0.message@ == code@,
        error->Network_0.op@ == "HTTP transport"@,
        error->Network_0.url@.len() == 0,
        error->Network_0.timeout <==> failure is Timeout,
        error->Network_0.eof <==> failure is Connection,
{
    reveal_strlit("");
}

/// No two failures of the transport go by the same code.
pub proof fn law_transport_codes_differ(
    a: TransportError,
    b: TransportError,
    code_a: &'static str,
    code_b: &'static str,
)
    requires
        call_ensures(TransportError::code, (a,), code_a),
        call_ensures(TransportError::code, (b,), code_b),
        code_a@ == code_b@,
    ensures
        a == b,
{
    reveal_strlit("http_transport_cancelled");
    reveal_strlit("http_transport_timeout");
    reveal_strlit("http_transport_connection_failed");
    reveal_strlit("http_transport_rejected");
    reveal_strlit("http_transport_invalid_request");
    reveal_strlit("http_transport_body_failed");
    reveal_strlit("http_transport_unsupported_body");
    reveal_strlit("http_transport_unsupported_websocket");
    assert("http_transport_cancelled"@.len() == 24);
    assert("http_transport_timeout"@.len() == 22);
    assert("http_transport_connection_failed"@.len() == 32);
    assert("http_transport_rejected"@.len() == 23);
    assert("http_transport_invalid_request"@.len() == 30);
    assert("http_transport_body_failed"@.len() == 26);
    assert("http_transport_unsupported_body"@.len() == 31);
    assert("http_transport_unsupported_websocket"@.len() == 36);
}

/// The failure goes by that code.
pub open spec fn authority_code_is(error: TokenAuthorityError, code: Seq<char>) -> bool {
    &&& error is Unavailable ==> code == "token_authority_unavailable"@
    &&& error is Missing ==> code == "token_authority_missing"@
    &&& error is RotationPending ==> code == "token_authority_rotation_pending"@
    &&& error is ReconciliationRequired ==> code == "token_authority_reconciliation_required"@
    &&& error is CommitUnverified ==> code == "token_authority_commit_unverified"@
}

/// A failure of an authority goes by its code, and is told as an error that says the code and nothing
/// more.
pub proof fn law_authority_failures_say_their_code(
    failure: TokenAuthorityError,
    code: &'static str,
    error: Error,
)
    requires
        call_ensures(TokenAuthorityError::code, (failure,), code),
        call_ensures(<Error as From<TokenAuthorityError>>::from, (failure,), error),
    ensures
        authority_code_is(failure, code@),
        error is Other,
        error->Other_0@ == code@,
{
}

/// No two failures of an authority go by the same code.
pub proof fn law_authority_codes_differ(
    a: TokenAuthorityError,
    b: TokenAuthorityError,
    code_a: &'static str,
    code_b: &'static str,
)
    requires
        call_ensures(TokenAuthorityError::code, (a,), code_a),
        call_ensures(TokenAuthorityError::code, (b,), code_b),
        code_a@ == code_b@,
    ensures
        a == b,
{
    reveal_strlit("token_authority_unavailable");
    reveal_strlit("token_authority_missing");
    reveal_strlit("token_authority_rotation_pending");
    reveal_strlit("token_authority_reconciliation_required");
    reveal_strlit("token_authority_commit_unverified");
    assert("token_authority_unavailable"@.len() == 27);
    assert("token_authority_missing"@.len() == 23);
    assert("token_authority_rotation_pending"@.len() == 32);
    assert("token_authority_reconciliation_required"@.len() == 39);
    assert("token_authority_commit_unverified"@.len() == 33);
}

/// A client of an authority may use tokens until it is blocked, and again once it is reconciled; while
/// it is blocked it is refused. The authority stays the same.
pub proof fn law_blocked_clients_are_refused<A>(
    authority: A,
    fresh: StrictState<A>,
    before: AuthorityResult<()>,
    blocked: &mut StrictState<A>,
    during: AuthorityResult<()>,
    settled: &mut StrictState<A>,
    after: AuthorityResult<()>,
    held: &A,
)
    requires
        call_ensures(StrictState::<A>::new, (authority,), fresh),
        call_ensures(StrictState::<A>::check, (&fresh,), before),
        call_ensures(StrictState::<A>::block, (blocked,), ()),
        call_ensures(StrictState::<A>::check, (&*final(blocked),), during),
        call_ensures(StrictState::<A>::reconcile, (settled,), ()),
        call_ensures(StrictState::<A>::check, (&*final(settled),), after),
        *old(blocked) == fresh,
        *old(settled) == *final(blocked),
        call_ensures(StrictState::<A>::authority, (&*final(settled),), held),
    ensures
        before is Ok,
        during == Err::<(), TokenAuthorityError>(TokenAuthorityError::ReconciliationRequired),
        after is Ok,
        *held == authority,
{
}

/// Tokens are the same just where all six of their texts are.
pub proof fn law_same_tokens_have_the_same_texts(a: TokenSet, b: TokenSet, equal: bool)
    requires
        call_ensures(tokens_equal, (&a, &b), equal),
    ensures
        equal <==> a.access_token@ == b.access_token@ && a.refresh_token@ == b.refresh_token@
            && a.expires_at@ == b.expires_at@ && a.scope@ == b.scope@ && a.client_id@ == b.client_id@
            && a.server_url@ == b.server_url@,
{
}

/// A body is sent byte for byte; a request without one is sent with none; one that is not there as
/// bytes is not sent.
pub proof fn law_bodies_are_sent_as_they_are(
    body: Option<Option<&[u8]>>,
    result: std::result::Result<Vec<u8>, TransportError>,
)
    requires
        call_ensures(request_body, (body,), result),
    ensures
        body is None ==> result is Ok && result->Ok_0@.len() == 0,
        body is Some && body->Some_0 is Some ==> result is Ok && result->Ok_0@
            == body->Some_0->Some_0@,
        body is Some && body->Some_0 is None ==> result is Err && result->Err_0 is UnsupportedBody,
{
}

/// What could not be sent failed of time, or else of the connection, or else was rejected; what could
/// not be read failed of time, or else of itself. Whoever waits is told of a cancellation first, then
/// of a result, and else waits on.
pub proof fn law_failures_are_told_apart(
    is_timeout: bool,
    is_connect: bool,
    sending: TransportError,
    reading: TransportError,
    cancelled: bool,
    ready: bool,
    verdict: Verdict,
)
    requires
        call_ensures(send_failure, (is_timeout, is_connect), sending),
        call_ensures(body_failure, (is_timeout,), reading),
        call_ensures(cancel_verdict, (cancelled, ready), verdict),
    ensures
        sending is Timeout <==> is_timeout,
        sending is Connection <==> is_connect && !is_timeout,
        sending is Rejected <==> !is_connect && !is_timeout,
        reading is Timeout <==> is_timeout,
        reading is Body <==> !is_timeout,
        verdict is Cancelled <==> cancelled,
        verdict is Take <==> ready && !cancelled,
        verdict is Wait <==> !ready && !cancelled,
{
}

/// A context says what it is made for and how long it may take; by default it is for the API, is
/// buffered, and may take 30 seconds.
pub proof fn law_contexts_say_what_they_are_made_for(
    purpose: HttpPurpose,
    millis: u64,
    buffered: HttpContext,
    streaming: HttpContext,
    usual: HttpContext,
)
    requires
        call_ensures(HttpContext::buffered, (purpose, millis), buffered),
        call_ensures(HttpContext::streaming, (purpose, millis), streaming),
        call_ensures(<HttpContext as Default>::default, (), usual),
    ensures
        buffered.purpose == purpose,
        streaming.purpose == purpose,
        buffered.response_mode is Buffered,
        streaming.response_mode is Streaming,
        buffered.timeout == transport::duration_of_millis(millis),
        streaming.timeout == transport::duration_of_millis(millis),
        usual.purpose is Api,
        usual.response_mode is Buffered,
        usual.timeout == transport::duration_of_millis(30000),
{
}

/// An exchange starts with the wait for its headers, in the mode that it is made for.
pub proof fn law_exchange_starts_with_its_headers(mode: HttpResponseMode, exchange: Exchange)
    requires
        call_ensures(Exchange::new, (mode,), exchange),
    ensures
        exchange.mode == mode,
        exchange.waiting is Headers,
{
}

/// An exchange that is under way is broken off just where it is cancelled, or where its time is up
/// while the body of a buffered one is read; it then waits for nothing any more. Cancellation counts
/// first. An exchange that is over is not broken off.
pub proof fn law_exchange_is_broken_off_for_a_reason(
    exchange: &mut Exchange,
    cancelled: bool,
    expired: bool,
    error: Option<TransportError>,
)
    requires
        call_ensures(Exchange::interrupt, (exchange, cancelled, expired), error),
    ensures
        ({
            let e = *old(exchange);
            let under_way = !(e.waiting is Nothing);
            let too_late = expired && e.waiting is Body && e.mode is Buffered;
            &&& error is Some <==> under_way && (cancelled || too_late)
            &&& error is Some ==> (error->Some_0 is Cancelled <==> cancelled) && (
            error->Some_0 is Timeout <==> !cancelled)
            &&& error is Some ==> final(exchange).waiting is Nothing && final(exchange).mode == e.mode
            &&& error is None ==> *final(exchange) == e
        }),
{
}

/// What a look at the transport brings is handed on: the headers, and then each part of the body and
/// its end, and any failure as the one that it is. Where it brings nothing that is waited for, the wait
/// goes on, but for headers whose time is up.
pub proof fn law_arrivals_are_handed_on(
    exchange: &mut Exchange,
    arrival: Arrival,
    expired: bool,
    progress: Progress,
)
    requires
        call_ensures(Exchange::arrive, (exchange, arrival, expired), progress),
    ensures
        ({
            let e = *old(exchange);
            let f = *final(exchange);
            let under_way = !(e.waiting is Nothing);
            &&& f.mode == e.mode
            &&& !under_way ==> progress is End && f == e
            &&& under_way && arrival is Failed ==> progress == Progress::Fail(arrival->Failed_0)
                && f.waiting is Nothing
            &&& e.waiting is Headers && arrival is Headers ==> progress is Headers && f.waiting is Body
            &&& e.waiting is Headers && !(arrival is Headers) && !(arrival is Failed) && expired
                ==> progress == Progress::Fail(TransportError::Timeout) && f.waiting is Nothing
            &&& e.waiting is Headers && !(arrival is Headers) && !(arrival is Failed) && !expired
                ==> progress is Wait && f == e
            &&& e.waiting is Body && arrival is Chunk ==> progress is Chunk && f == e
            &&& e.waiting is Body && arrival is End ==> progress is End && f.waiting is Nothing
            &&& e.waiting is Body && (arrival is Nothing || arrival is Headers) ==> progress is Wait
                && f == e
        }),
{
}

} // verus!
