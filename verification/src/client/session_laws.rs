//! What holds of every session with an authority.
use crate::auth::types;
use crate::client::authority::TokenAuthorityError;
use crate::client::session;
use crate::client::session::StrictRequest;
use vstd::prelude::*;

verus! {

/// What a session is told.
pub ghost enum Input {
    Start(StrictRequest),
    Reply(session::ReplyView),
}

/// What a session makes of an input.
pub open spec fn step(s: session::SessionView, input: Input) -> (
    session::SessionView,
    session::ActionView,
) {
    match input {
        Input::Start(request) => session::on_start(s, request),
        Input::Reply(reply) => session::on_reply(s, reply),
    }
}

/// What a session is after one input after the other.
pub open spec fn run(inputs: Seq<Input>) -> session::SessionView
    decreases inputs.len(),
{
    if inputs.len() == 0 {
        session::fresh()
    } else {
        step(run(inputs.drop_last()), inputs.last()).0
    }
}

/// The operation is past the point from which it can be cut off with something left uncertain.
pub open spec fn uncertain(stage: session::StageView) -> bool {
    match stage {
        session::StageView::Idle | session::StageView::Loading(_) => false,
        _ => true,
    }
}

/// The action changes something outside of the session.
pub open spec fn has_effect(action: session::ActionView) -> bool {
    match action {
        session::ActionView::Load | session::ActionView::Finish(_) => false,
        _ => true,
    }
}

proof fn lemma_step_fails_closed(s: session::SessionView, input: Input)
    requires
        s.blocked ==> s.cache is None,
        uncertain(s.stage) ==> s.blocked,
    ensures
        step(s, input).0.blocked ==> step(s, input).0.cache is None,
        uncertain(step(s, input).0.stage) ==> step(s, input).0.blocked,
{
}

/// A session that may not use tokens holds none. From the moment before something is left uncertain
/// to the moment after it is settled, it may not use tokens.
pub proof fn law_fails_closed(inputs: Seq<Input>)
    ensures
        run(inputs).blocked ==> run(inputs).cache is None,
        uncertain(run(inputs).stage) ==> run(inputs).blocked,
    decreases inputs.len(),
{
    if inputs.len() > 0 {
        law_fails_closed(inputs.drop_last());
        lemma_step_fails_closed(run(inputs.drop_last()), inputs.last());
    }
}

/// Whatever changes something outside is asked for only while the session may use no tokens and
/// holds none.
pub proof fn law_effects_come_after_blocking(inputs: Seq<Input>, input: Input)
    requires
        has_effect(step(run(inputs), input).1),
    ensures
        step(run(inputs), input).0.blocked,
        step(run(inputs), input).0.cache is None,
{
    law_fails_closed(inputs);
}

/// New tokens are asked for only after the authority has marked the rotation as pending.
pub proof fn law_exchange_comes_after_begin(inputs: Seq<Input>, input: Input)
    requires
        step(run(inputs), input).1 is Exchange,
    ensures
        input matches Input::Reply(session::ReplyView::Began(Ok(_))),
        run(inputs).stage is Beginning,
{
}

/// Tokens are handed out only as the authority was just seen to have them; after a rotation, only
/// those that were committed.
pub proof fn law_tokens_are_published_as_seen(
    inputs: Seq<Input>,
    input: Input,
    tokens: types::TokenSetView,
)
    requires
        step(run(inputs), input).1 == session::ActionView::Finish(
            Ok(session::OutcomeView::Authorized(tokens)),
        ),
    ensures
        input matches Input::Reply(session::ReplyView::Loaded(Ok(state), _)) && state
            == session::AuthorityView::Ready(tokens),
        run(inputs).stage matches session::StageView::ReadingBack(committed) ==> committed
            == tokens,
{
}

/// An operation that fails while the session may use no tokens leaves it so. Whatever fails, whether
/// it is the begin, the exchange, the commit, the reading back or a cancellation, has to be
/// reconciled.
pub proof fn law_failure_stays_blocked(inputs: Seq<Input>, input: Input)
    requires
        run(inputs).blocked,
        step(run(inputs), input).1 matches session::ActionView::Finish(Err(_)),
    ensures
        step(run(inputs), input).0.blocked,
        step(run(inputs), input).0.cache is None,
{
    law_fails_closed(inputs);
}

/// A session that may use no tokens refuses every operation but reconciliation, asks for nothing and
/// stays as it is.
pub proof fn law_blocked_session_refuses(s: session::SessionView, request: StrictRequest)
    requires
        s.blocked,
        s.stage is Idle,
        request != StrictRequest::Reconcile,
    ensures
        step(s, Input::Start(request)) == (
            s,
            session::ActionView::Finish(Err(TokenAuthorityError::ReconciliationRequired)),
        ),
{
}

/// Reconciliation asks for nothing but the state of the authority.
pub proof fn law_reconciliation_only_reads(s: session::SessionView, reply: session::ReplyView)
    ensures
        step(s, Input::Start(StrictRequest::Reconcile)).1 == session::ActionView::Load,
        !has_effect(
            step(step(s, Input::Start(StrictRequest::Reconcile)).0, Input::Reply(reply)).1,
        ),
{
}

/// A session that may use no tokens may use them again only after it has seen in the authority the
/// tokens that it then holds, or, after a logout, that there are none.
pub proof fn law_unblocking_needs_a_look(inputs: Seq<Input>, input: Input)
    requires
        run(inputs).blocked,
        !step(run(inputs), input).0.blocked,
    ensures
        input matches Input::Reply(session::ReplyView::Loaded(Ok(state), _)) && (match state {
            session::AuthorityView::Ready(tokens) => step(run(inputs), input).0.cache == Some(
                tokens,
            ),
            session::AuthorityView::Missing => run(inputs).stage is VerifyingClear,
            session::AuthorityView::RotationPending => false,
        }),
{
}

/// A rotation that is pending is not cleared.
pub proof fn law_pending_is_not_cleared(inputs: Seq<Input>, input: Input)
    requires
        step(run(inputs), input).1 is Clear,
    ensures
        input matches Input::Reply(session::ReplyView::Loaded(Ok(state), _)) && !(
        state is RotationPending),
{
}

/// A login exchanges a grant, also where the authority has tokens; a refresh exchanges the tokens that
/// the authority has.
pub proof fn law_login_exchanges_a_grant(
    s: session::SessionView,
    request: StrictRequest,
    reply: session::ReplyView,
)
    requires
        s.stage == session::StageView::Loading(request),
    ensures
        session::on_reply(s, reply).0.stage matches session::StageView::Beginning(tokens) ==> {
            let begun = session::on_reply(
                session::on_reply(s, reply).0,
                session::ReplyView::Began(Ok(())),
            );
            &&& begun.1 == session::ActionView::Exchange(tokens)
            &&& tokens is None <==> request == StrictRequest::Login
            &&& tokens matches Some(held) ==> reply matches session::ReplyView::Loaded(
                Ok(session::AuthorityView::Ready(found)),
                _,
            ) && found == held
        },
{
}

} // verus!
