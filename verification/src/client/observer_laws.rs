//! What holds of every identifier that a gateway gives a request, and of the observers of a request.
use crate::client::observer;
use crate::client::observer::read_gateway_request_id;
use crate::client::observer::request_id_in;
use crate::client::observer::ChatOptions;
use crate::shared::text_laws;
use vstd::prelude::*;

verus! {

/// The ASCII letters of either case, the digits, and `-`, `.`, `:` and `_`.
pub open spec fn allowed(c: char) -> bool {
    let n = c as int;
    ||| 65 <= n <= 90
    ||| 97 <= n <= 122
    ||| 48 <= n <= 57
    ||| n == 45 || n == 46 || n == 58 || n == 95
}

/// From 1 to 256 characters, each of them allowed.
pub open spec fn all_allowed(id: Seq<char>) -> bool {
    &&& 1 <= id.len() <= 256
    &&& forall|i: int| 0 <= i < id.len() ==> allowed(#[trigger] id[i])
}

/// An identifier that is alone in the header, with or without white space around it, is the one that
/// is reported: each of its characters as it was sent.
pub proof fn law_single_id_is_reported(
    values: Seq<Option<Seq<char>>>,
    front: Seq<char>,
    id: Seq<char>,
    back: Seq<char>,
)
    requires
        values.len() == 1,
        text_laws::all_space(front),
        text_laws::all_space(back),
        values[0] == Some(text_laws::around(front, id, back)),
        all_allowed(id),
    ensures
        observer::request_id(values) == Some(id),
{
    assert(allowed(id[0]));
    assert(allowed(id[id.len() - 1]));
    text_laws::law_trimmed_is_the_core(front, id, back);
    assert forall|i: int| 0 <= i < id.len() implies observer::id_char(#[trigger] id[i]) by {
        assert(allowed(id[i]));
    }
}

/// What is reported is what the one value of the header says but for the white space around it, and
/// is made of allowed characters.
pub proof fn law_reported_id_was_sent(values: Seq<Option<Seq<char>>>)
    requires
        observer::request_id(values) is Some,
    ensures
        values.len() == 1,
        values[0] is Some,
        text_laws::is_core(values[0]->Some_0, observer::request_id(values)->Some_0),
        all_allowed(observer::request_id(values)->Some_0),
{
    let id = observer::request_id(values)->Some_0;
    text_laws::law_every_text_has_a_core(values[0]->Some_0);
    assert forall|i: int| 0 <= i < id.len() implies allowed(#[trigger] id[i]) by {
        assert(observer::id_char(id[i]));
    }
}

/// Reading the values of the header: a single identifier is found as it was sent, also with white
/// space around it; nothing else is found.
pub proof fn law_id_is_read_from_one_value(
    values: Vec<Option<&str>>,
    front: Seq<char>,
    sent: Seq<char>,
    back: Seq<char>,
    id: Option<&str>,
)
    requires
        call_ensures(request_id_in, (&values,), id),
        text_laws::all_space(front),
        text_laws::all_space(back),
        text_laws::no_space_around(sent),
        values@.len() == 1 && values@[0] is Some ==> values@[0]->Some_0@ == text_laws::around(
            front,
            sent,
            back,
        ),
    ensures
        id is Some <==> values@.len() == 1 && values@[0] is Some && all_allowed(sent),
        id is Some ==> id->Some_0@ == sent,
{
    let told = values.deep_view();
    assert(told.len() == values@.len());
    if values@.len() == 1 {
        assert(told[0] == values@[0].deep_view());
        if values@[0] is Some {
            assert(told[0] == Some(values@[0]->Some_0@));
            text_laws::law_trimmed_is_the_core(front, sent, back);
            if all_allowed(sent) {
                law_single_id_is_reported(told, front, sent, back);
            }
        }
    }
    if id is Some {
        law_reported_id_was_sent(told);
    }
}

/// The identifier of a response is the one in the header `X-Acosmi-Request-Id`.
pub proof fn law_id_is_in_its_header(headers: http::HeaderMap, id: Option<&str>)
    requires
        call_ensures(read_gateway_request_id, (&headers,), id),
    ensures
        id.deep_view() == observer::request_id(
            observer::header_texts(headers, "X-Acosmi-Request-Id"@),
        ),
{
}

/// The observer of a request's identifier is called at most once, and only with the identifier that
/// the header gives; the other observer is left alone.
pub proof fn law_id_is_reported_once<A, R>(
    options: &mut ChatOptions<A, R>,
    headers: http::HeaderMap,
    call: Option<(R, &str)>,
)
    requires
        call_ensures(ChatOptions::<A, R>::response, (options, &headers), call),
    ensures
        final(options).on_gateway_request_id is None,
        final(options).on_upstream_activity == old(options).on_upstream_activity,
        old(options).on_gateway_request_id is None ==> call is None,
        ({
            let given = observer::request_id(
                observer::header_texts(headers, "X-Acosmi-Request-Id"@),
            );
            &&& old(options).on_gateway_request_id is Some ==> (call is Some <==> given is Some)
            &&& call is Some ==> given == Some(call->Some_0.1@) && old(
                options,
            ).on_gateway_request_id == Some(call->Some_0.0)
        }),
{
}

/// The observer of activity is taken out for a call, where there is one, and put back after it; after
/// a call that panicked it stays out. The other observer is left alone.
pub proof fn law_activity_is_watched_until_a_panic<A, R>(
    taken: &mut ChatOptions<A, R>,
    callback: Option<A>,
    settled: &mut ChatOptions<A, R>,
    panicked: bool,
)
    requires
        call_ensures(ChatOptions::<A, R>::activity, (taken,), callback),
        callback is Some ==> call_ensures(
            ChatOptions::<A, R>::settle_activity,
            (settled, callback->Some_0, panicked),
            (),
        ),
        *final(taken) == *old(settled),
    ensures
        callback == old(taken).on_upstream_activity,
        final(taken).on_upstream_activity is None,
        final(taken).on_gateway_request_id == old(taken).on_gateway_request_id,
        callback is Some && panicked ==> final(settled).on_upstream_activity is None,
        callback is Some && !panicked ==> final(settled).on_upstream_activity
            == old(taken).on_upstream_activity,
        callback is Some ==> final(settled).on_gateway_request_id == old(taken).on_gateway_request_id,
{
}

/// Nobody watches a request unless somebody asks to.
pub proof fn law_nobody_watches_at_first<A, R>(options: ChatOptions<A, R>)
    requires
        call_ensures(<ChatOptions<A, R> as Default>::default, (), options),
    ensures
        options.on_upstream_activity is None,
        options.on_gateway_request_id is None,
{
}

} // verus!
