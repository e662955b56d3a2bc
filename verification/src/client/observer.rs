//! Observers of model requests. None of them controls a request.
use crate::shared::text;
use crate::shared::text::characters;
use crate::shared::text::trim_text;
use vstd::prelude::*;

verus! {

/// `http::HeaderValue`.
#[verifier::external_type_specification]
#[verifier::external_body]
pub struct ExHeaderValue(http::HeaderValue);

/// `http::HeaderMap`.
#[verifier::external_type_specification]
#[verifier::external_body]
#[verifier::reject_recursive_types(T)]
pub struct ExHeaderMap<T>(http::HeaderMap<T>);

/// The header that names a request for billing. It is neither the identifier of the transport nor
/// one inside the content.
pub const GATEWAY_REQUEST_ID_HEADER: &'static str = "X-Acosmi-Request-Id";

/// The longest identifier.
pub const MAX_REQUEST_ID: usize = 256;

/// The values of a header, in order, as texts; `None` for one that is no text.
pub uninterp spec fn header_texts(headers: http::HeaderMap, name: Seq<char>) -> Seq<
    Option<Seq<char>>,
>;

/// `HeaderMap::get_all`, and `HeaderValue::to_str` on each value.
#[verifier::external_body]
fn read_header<'a>(headers: &'a http::HeaderMap, name: &str) -> (values: Vec<Option<&'a str>>)
    ensures
        values.deep_view() == header_texts(*headers, name@),
{
    headers.get_all(name).iter().map(|v| v.to_str().ok()).collect()
}

/// A character that an identifier is made of.
pub open spec fn id_char(c: char) -> bool {
    ||| 'a' <= c <= 'z'
    ||| 'A' <= c <= 'Z'
    ||| '0' <= c <= '9'
    ||| c == '-'
    ||| c == '_'
    ||| c == '.'
    ||| c == ':'
}

/// An identifier: not empty, not too long, and made of the right characters.
pub open spec fn is_request_id(id: Seq<char>) -> bool {
    &&& 1 <= id.len() <= MAX_REQUEST_ID
    &&& forall|i: int| 0 <= i < id.len() ==> id_char(#[trigger] id[i])
}

/// The identifier that the values of the header give: there has to be one value, which is an
/// identifier but for the white space around it.
pub open spec fn request_id(values: Seq<Option<Seq<char>>>) -> Option<Seq<char>> {
    if values.len() == 1 {
        match values[0] {
            Some(value) => if is_request_id(text::trimmed(value)) {
                Some(text::trimmed(value))
            } else {
                None
            },
            None => None,
        }
    } else {
        None
    }
}

fn is_id_char(c: char) -> (result: bool)
    ensures
        result == id_char(c),
{
    ('a' <= c && c <= 'z') || ('A' <= c && c <= 'Z') || ('0' <= c && c <= '9') || c == '-' || c
        == '_' || c == '.' || c == ':'
}

/// Reads the identifier out of the values of the header.
pub fn request_id_in<'a>(values: &Vec<Option<&'a str>>) -> (id: Option<&'a str>)
    ensures
        id.deep_view() == request_id(values.deep_view()),
{
    if values.len() != 1 {
        return None;
    }
    assert(values.deep_view()[0] == values@[0].deep_view());
    match values[0] {
        Some(value) => {
            let id: &'a str = trim_text(value);
            let chars: Vec<char> = characters(id);
            if chars.len() == 0 || chars.len() > MAX_REQUEST_ID {
                return None;
            }
            let mut i: usize = 0;
            while i < chars.len()
                invariant
                    i <= chars@.len(),
                    chars@ == id@,
                    values.deep_view().len() == 1,
                    values.deep_view()[0] == Some(value@),
                    id@ == text::trimmed(value@),
                    forall|j: int| 0 <= j < i ==> id_char(#[trigger] chars@[j]),
                decreases chars@.len() - i,
            {
                if !is_id_char(chars[i]) {
                    assert(!id_char(id@[i as int]));
                    return None;
                }
                i += 1;
            }
            Some(id)
        },
        None => None,
    }
}

/// The identifier under which a gateway bills a request. There is none but what the header gives.
pub fn read_gateway_request_id(headers: &http::HeaderMap) -> (id: Option<&str>)
    ensures
        id.deep_view() == request_id(header_texts(*headers, GATEWAY_REQUEST_ID_HEADER@)),
{
    request_id_in(&read_header(headers, GATEWAY_REQUEST_ID_HEADER))
}

/// The observers of a request. `A` is called for every line of a stream, `R` once, with the
/// identifier of the request.
#[derive(Clone)]
pub struct ChatOptions<A, R> {
    pub on_upstream_activity: Option<A>,
    pub on_gateway_request_id: Option<R>,
}

impl<A, R> Default for ChatOptions<A, R> {
    fn default() -> (options: ChatOptions<A, R>)
        ensures
            options.on_upstream_activity is None,
            options.on_gateway_request_id is None,
    {
        ChatOptions { on_upstream_activity: None, on_gateway_request_id: None }
    }
}

impl<A, R> ChatOptions<A, R> {
    /// Takes the observer of activity out, to be called.
    pub fn activity(&mut self) -> (callback: Option<A>)
        ensures
            callback == old(self).on_upstream_activity,
            final(self).on_upstream_activity is None,
            final(self).on_gateway_request_id == old(self).on_gateway_request_id,
    {
        self.on_upstream_activity.take()
    }

    /// Puts the observer of activity back after a call, unless the call panicked: it is not called
    /// again in that operation.
    pub fn settle_activity(&mut self, callback: A, panicked: bool)
        ensures
            final(self).on_upstream_activity == (if panicked {
                old(self).on_upstream_activity
            } else {
                Some(callback)
            }),
            final(self).on_gateway_request_id == old(self).on_gateway_request_id,
    {
        if !panicked {
            self.on_upstream_activity = Some(callback);
        }
    }

    /// Takes the observer of the identifier out, to be called with the identifier, where there is
    /// one. It is taken out in any case: it is called once at most.
    pub fn response<'a>(&mut self, headers: &'a http::HeaderMap) -> (call: Option<(R, &'a str)>)
        ensures
            final(self).on_gateway_request_id is None,
            final(self).on_upstream_activity == old(self).on_upstream_activity,
            match (
                old(self).on_gateway_request_id,
                request_id(header_texts(*headers, GATEWAY_REQUEST_ID_HEADER@)),
            ) {
                (Some(callback), Some(id)) => call matches Some((c, i)) && c == callback && i@
                    == id,
                _ => call is None,
            },
    {
        match (self.on_gateway_request_id.take(), read_gateway_request_id(headers)) {
            (Some(callback), Some(id)) => Some((callback, id)),
            _ => None,
        }
    }
}

/// What is reported is always an identifier, and only one that a single value of the header gives.
pub proof fn law_reported_id_is_well_formed(values: Seq<Option<Seq<char>>>)
    requires
        request_id(values) is Some,
    ensures
        is_request_id(request_id(values)->Some_0),
        values.len() == 1,
        values[0] is Some,
{
}

} // verus!
