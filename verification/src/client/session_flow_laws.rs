//! What holds of every operation of a session, from its start to its end.
use crate::auth::types;
use crate::auth::types::TokenSet;
use crate::client::authority::AuthorityResult;
use crate::client::authority::AuthorityState;
use crate::client::authority::TokenAuthorityError;
use crate::client::session;
use crate::client::session::StrictAction;
use crate::client::session::StrictOutcome;
use crate::client::session::StrictReply;
use crate::client::session::StrictRequest;
use crate::client::session::StrictSession;
use crate::client::session_laws;
use vstd::prelude::*;

verus! {

/// What a session is started with and told is what it goes on with, and what it asks for is what it is
/// seen to ask for. Its authority stays the same.
pub proof fn law_calls_are_steps<A>(
    started: &mut StrictSession<A>,
    request: StrictRequest,
    first: StrictAction,
    resumed: &mut StrictSession<A>,
    reply: StrictReply,
    next: StrictAction,
)
    requires
        call_ensures(StrictSession::<A>::start, (started, request), first),
        call_ensures(StrictSession::<A>::resume, (resumed, reply), next),
    ensures
        (final(started)@, first@) == session_laws::step(
            old(started)@,
            session_laws::Input::Start(request),
        ),
        (final(resumed)@, next@) == session_laws::step(
            old(resumed)@,
            session_laws::Input::Reply(reply@),
        ),
        final(started).holder() == old(started).holder(),
        final(resumed).holder() == old(resumed).holder(),
{
}

/// A new session holds nothing, may use tokens, and is of its authority. It is authorized just where it
/// holds tokens, and these are the ones that it hands out.
pub proof fn law_session_holds_what_it_shows<A>(
    authority: A,
    fresh: StrictSession<A>,
    held: &A,
    session: StrictSession<A>,
    authorized: bool,
    tokens: Option<TokenSet>,
)
    requires
        call_ensures(StrictSession::<A>::new, (authority,), fresh),
        call_ensures(StrictSession::<A>::authority, (&fresh,), held),
        call_ensures(StrictSession::<A>::is_authorized, (&session,), authorized),
        call_ensures(StrictSession::<A>::token_set, (&session,), tokens),
    ensures
        *held == authority,
        !fresh@.blocked,
        fresh@.cache is None,
        fresh@.stage is Idle,
        authorized <==> session@.cache is Some,
        tokens is Some <==> authorized,
        tokens is Some ==> tokens->Some_0@ == session@.cache->Some_0,
{
}

/// An action is seen as the one that it is, with what it holds.
pub proof fn law_actions_are_seen_as_they_are(action: StrictAction)
    ensures
        action is Load <==> action@ is Load,
        action is BeginRotation <==> action@ is BeginRotation,
        action is Clear <==> action@ is Clear,
        action is Exchange <==> action@ is Exchange,
        action is CommitRotation <==> action@ is CommitRotation,
        action is Finish <==> action@ is Finish,
        action matches StrictAction::CommitRotation(tokens) ==> action@->CommitRotation_0 == tokens@,
        action matches StrictAction::Exchange(Some(tokens)) ==> action@->Exchange_0 == Some(
            tokens@,
        ),
        action matches StrictAction::Exchange(None) ==> action@->Exchange_0 is None,
        action matches StrictAction::Finish(Err(error)) ==> action@->Finish_0 == Err::<
            session::OutcomeView,
            TokenAuthorityError,
        >(error),
        action matches StrictAction::Finish(Ok(StrictOutcome::Authorized(tokens)))
            ==> action@->Finish_0 == Ok::<session::OutcomeView, TokenAuthorityError>(
            session::OutcomeView::Authorized(tokens@),
        ),
        action matches StrictAction::Finish(Ok(StrictOutcome::Unauthenticated)) ==> action@->Finish_0
            == Ok::<session::OutcomeView, TokenAuthorityError>(
            session::OutcomeView::Unauthenticated,
        ),
        action matches StrictAction::Finish(Ok(StrictOutcome::LoggedOut(Some(tokens))))
            ==> action@->Finish_0 == Ok::<session::OutcomeView, TokenAuthorityError>(
            session::OutcomeView::LoggedOut(Some(tokens@)),
        ),
        action matches StrictAction::Finish(Ok(StrictOutcome::LoggedOut(None))) ==> action@->Finish_0
            == Ok::<session::OutcomeView, TokenAuthorityError>(
            session::OutcomeView::LoggedOut(None),
        ),
{
}

/// A reply is seen as the one that it is, with what it holds.
pub proof fn law_replies_are_seen_as_they_are(
    tokens: TokenSet,
    expired: bool,
    done: AuthorityResult<()>,
    error: TokenAuthorityError,
)
    ensures
        StrictReply::Loaded(Ok(AuthorityState::Ready(tokens)), expired)@ == ready(tokens@, expired),
        StrictReply::Loaded(Ok(AuthorityState::Missing), expired)@ == missing(expired),
        StrictReply::Loaded(Ok(AuthorityState::RotationPending), expired)@
            == session::ReplyView::Loaded(Ok(session::AuthorityView::RotationPending), expired),
        StrictReply::Loaded(Err(error), expired)@ == session::ReplyView::Loaded(
            Err(error),
            expired,
        ),
        StrictReply::Began(done)@ == session::ReplyView::Began(done),
        StrictReply::Exchanged(Ok(tokens))@ == session::ReplyView::Exchanged(Ok(tokens@)),
        StrictReply::Exchanged(Err(error))@ == session::ReplyView::Exchanged(Err(error)),
        StrictReply::Committed(done)@ == session::ReplyView::Committed(done),
        StrictReply::Cleared(done)@ == session::ReplyView::Cleared(done),
        StrictReply::Cancelled@ == session::ReplyView::Cancelled,
{
}

/// The authority has these tokens.
pub open spec fn ready(tokens: types::TokenSetView, expired: bool) -> session::ReplyView {
    session::ReplyView::Loaded(Ok(session::AuthorityView::Ready(tokens)), expired)
}

/// The authority has no tokens.
pub open spec fn missing(expired: bool) -> session::ReplyView {
    session::ReplyView::Loaded(Ok(session::AuthorityView::Missing), expired)
}

/// Where a session stands after the start of an operation and the reply that follows.
pub open spec fn begun(
    s: session::SessionView,
    request: StrictRequest,
    reply: session::ReplyView,
) -> (session::SessionView, session::ActionView) {
    session_laws::step(
        session_laws::step(s, session_laws::Input::Start(request)).0,
        session_laws::Input::Reply(reply),
    )
}

/// The next step of an operation.
pub open spec fn after(s: session::SessionView, reply: session::ReplyView) -> (
    session::SessionView,
    session::ActionView,
) {
    session_laws::step(s, session_laws::Input::Reply(reply))
}

/// The operation has ended with these tokens, which may be used.
pub open spec fn ends_with_tokens(
    end: (session::SessionView, session::ActionView),
    tokens: types::TokenSetView,
) -> bool {
    &&& !end.0.blocked
    &&& end.0.cache == Some(tokens)
    &&& end.0.stage is Idle
    &&& end.1 == session::ActionView::Finish(Ok(session::OutcomeView::Authorized(tokens)))
}

/// The operation has ended with this error. The session holds no tokens.
pub open spec fn ends_with_error(
    end: (session::SessionView, session::ActionView),
    error: TokenAuthorityError,
) -> bool {
    &&& end.0.cache is None
    &&& end.0.stage is Idle
    &&& end.1 == session::ActionView::Finish(Err(error))
}

/// Every operation of a session that may use tokens starts with a look at the authority, and so does
/// reconciliation in any case.
pub proof fn law_operations_start_with_a_look(s: session::SessionView, request: StrictRequest)
    requires
        !s.blocked || request == StrictRequest::Reconcile,
    ensures
        session_laws::step(s, session_laws::Input::Start(request)).1 is Load,
        session_laws::step(s, session_laws::Input::Start(request)).0.cache == s.cache,
        session_laws::step(s, session_laws::Input::Start(request)).0.blocked == s.blocked,
{
}

/// Connecting takes up the tokens that the authority has, expired or not; so does reconciling, whatever
/// was uncertain. Where the authority has none there are none.
pub proof fn law_connecting_takes_up_what_is_there(
    s: session::SessionView,
    request: StrictRequest,
    tokens: types::TokenSetView,
    expired: bool,
)
    requires
        request == StrictRequest::Connect || request == StrictRequest::Reconcile,
        !s.blocked || request == StrictRequest::Reconcile,
    ensures
        ends_with_tokens(begun(s, request, ready(tokens, expired)), tokens),
        ({
            let end = begun(s, request, missing(expired));
            &&& end.0.cache is None
            &&& end.0.stage is Idle
            &&& end.0.blocked == s.blocked
            &&& end.1 == session::ActionView::Finish(Ok(session::OutcomeView::Unauthenticated))
        }),
{
}

/// Tokens that have not expired are handed out without anything being done; where there are none, that
/// is said. A rotation that is pending, or an authority that cannot be read, ends every operation.
pub proof fn law_good_tokens_are_handed_out(
    s: session::SessionView,
    request: StrictRequest,
    tokens: types::TokenSetView,
    expired: bool,
    error: TokenAuthorityError,
)
    requires
        !s.blocked || request == StrictRequest::Reconcile,
    ensures
        request == StrictRequest::EnsureToken ==> ends_with_tokens(
            begun(s, request, ready(tokens, false)),
            tokens,
        ),
        request == StrictRequest::EnsureToken || request == StrictRequest::ForceRefresh
            ==> ends_with_error(
            begun(s, request, missing(expired)),
            TokenAuthorityError::Missing,
        ),
        ends_with_error(
            begun(
                s,
                request,
                session::ReplyView::Loaded(Ok(session::AuthorityView::RotationPending), expired),
            ),
            TokenAuthorityError::RotationPending,
        ),
        ends_with_error(
            begun(s, request, session::ReplyView::Loaded(Err(error), expired)),
            error,
        ),
{
}

/// A rotation goes through all of its steps. It begins; tokens are exchanged; the new ones, and no
/// others, are committed; and what the authority then has is read. Only where those are the new tokens
/// are they handed out. Each failure on the way is told as it is, and leaves the session blocked.
pub open spec fn rotates(
    start: (session::SessionView, session::ActionView),
    exchanged: Option<types::TokenSetView>,
    tokens: types::TokenSetView,
    other: types::TokenSetView,
    expired: bool,
    error: TokenAuthorityError,
) -> bool {
    let began = after(start.0, session::ReplyView::Began(Ok(())));
    let changed = after(began.0, session::ReplyView::Exchanged(Ok(tokens)));
    let committed = after(changed.0, session::ReplyView::Committed(Ok(())));
    &&& start.1 is BeginRotation
    &&& start.0.blocked && start.0.cache is None
    &&& began.1 == session::ActionView::Exchange(exchanged)
    &&& began.0.blocked && began.0.cache is None
    &&& changed.1 == session::ActionView::CommitRotation(tokens)
    &&& changed.0.blocked && changed.0.cache is None
    &&& committed.1 is Load
    &&& committed.0.blocked && committed.0.cache is None
    &&& ends_with_tokens(after(committed.0, ready(tokens, expired)), tokens)
    &&& other != tokens ==> stays_blocked(
        after(committed.0, ready(other, expired)),
        TokenAuthorityError::CommitUnverified,
    )
    &&& stays_blocked(
        after(committed.0, missing(expired)),
        TokenAuthorityError::CommitUnverified,
    )
    &&& stays_blocked(
        after(committed.0, session::ReplyView::Loaded(Err(error), expired)),
        error,
    )
    &&& stays_blocked(after(changed.0, session::ReplyView::Committed(Err(error))), error)
    &&& stays_blocked(after(began.0, session::ReplyView::Exchanged(Err(error))), error)
    &&& stays_blocked(after(start.0, session::ReplyView::Began(Err(error))), error)
    &&& stays_blocked(
        after(start.0, session::ReplyView::Cancelled),
        TokenAuthorityError::Unavailable,
    )
    &&& stays_blocked(
        after(began.0, session::ReplyView::Cancelled),
        TokenAuthorityError::Unavailable,
    )
    &&& stays_blocked(
        after(changed.0, session::ReplyView::Cancelled),
        TokenAuthorityError::Unavailable,
    )
    &&& stays_blocked(
        after(committed.0, session::ReplyView::Cancelled),
        TokenAuthorityError::Unavailable,
    )
}

/// The operation has ended with this error, and the session may use no tokens.
pub open spec fn stays_blocked(
    end: (session::SessionView, session::ActionView),
    error: TokenAuthorityError,
) -> bool {
    ends_with_error(end, error) && end.0.blocked
}

/// Tokens that have expired are rotated, and a refresh rotates them in any case: the tokens that the
/// authority has are exchanged for new ones.
pub proof fn law_refresh_rotates_the_tokens(
    s: session::SessionView,
    request: StrictRequest,
    old_tokens: types::TokenSetView,
    tokens: types::TokenSetView,
    other: types::TokenSetView,
    expired: bool,
    error: TokenAuthorityError,
)
    requires
        !s.blocked,
        request == StrictRequest::ForceRefresh || (request == StrictRequest::EnsureToken && expired),
    ensures
        rotates(
            begun(s, request, ready(old_tokens, expired)),
            Some(old_tokens),
            tokens,
            other,
            expired,
            error,
        ),
{
}

/// A login rotates too, whether the authority has tokens or not: a grant is exchanged for new ones.
pub proof fn law_login_rotates_in_new_tokens(
    s: session::SessionView,
    old_tokens: types::TokenSetView,
    tokens: types::TokenSetView,
    other: types::TokenSetView,
    expired: bool,
    error: TokenAuthorityError,
)
    requires
        !s.blocked,
    ensures
        rotates(
            begun(s, StrictRequest::Login, ready(old_tokens, expired)),
            None,
            tokens,
            other,
            expired,
            error,
        ),
        rotates(
            begun(s, StrictRequest::Login, missing(expired)),
            None,
            tokens,
            other,
            expired,
            error,
        ),
{
}

/// A logout clears the tokens of the authority and looks whether they are gone. Only then has it
/// succeeded, and hands out the tokens that there were. Each failure on the way is told as it is, and
/// leaves the session blocked.
pub open spec fn clears(
    start: (session::SessionView, session::ActionView),
    gone: Option<types::TokenSetView>,
    other: types::TokenSetView,
    expired: bool,
    error: TokenAuthorityError,
) -> bool {
    let cleared = after(start.0, session::ReplyView::Cleared(Ok(())));
    let end = after(cleared.0, missing(expired));
    &&& start.1 is Clear
    &&& start.0.blocked && start.0.cache is None
    &&& cleared.1 is Load
    &&& cleared.0.blocked && cleared.0.cache is None
    &&& end.1 == session::ActionView::Finish(Ok(session::OutcomeView::LoggedOut(gone)))
    &&& !end.0.blocked && end.0.cache is None && end.0.stage is Idle
    &&& stays_blocked(
        after(cleared.0, ready(other, expired)),
        TokenAuthorityError::CommitUnverified,
    )
    &&& stays_blocked(
        after(cleared.0, session::ReplyView::Loaded(Err(error), expired)),
        error,
    )
    &&& stays_blocked(after(start.0, session::ReplyView::Cleared(Err(error))), error)
    &&& stays_blocked(
        after(start.0, session::ReplyView::Cancelled),
        TokenAuthorityError::Unavailable,
    )
    &&& stays_blocked(
        after(cleared.0, session::ReplyView::Cancelled),
        TokenAuthorityError::Unavailable,
    )
}

/// A logout gives up the tokens that the authority has, and succeeds as well where it has none.
pub proof fn law_logout_clears_the_tokens(
    s: session::SessionView,
    tokens: types::TokenSetView,
    other: types::TokenSetView,
    expired: bool,
    error: TokenAuthorityError,
)
    requires
        !s.blocked,
    ensures
        clears(
            begun(s, StrictRequest::Logout, ready(tokens, expired)),
            Some(tokens),
            other,
            expired,
            error,
        ),
        clears(begun(s, StrictRequest::Logout, missing(expired)), None, other, expired, error),
{
}

/// A reply that nobody waits for ends the operation, if there is one, and changes nothing else; so does
/// a cancellation while the authority is looked at.
pub proof fn law_strange_replies_end_the_operation(
    s: session::SessionView,
    reply: session::ReplyView,
)
    requires
        s.stage is Idle || reply is Cancelled || (s.stage is Loading && !(reply is Loaded)),
    ensures
        after(s, reply).1 == session::ActionView::Finish(Err(TokenAuthorityError::Unavailable)),
        after(s, reply).0.stage is Idle,
        after(s, reply).0.blocked == s.blocked,
        after(s, reply).0.cache == s.cache,
{
}

} // verus!
