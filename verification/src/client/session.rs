//! How a client works with an authority that has the last word on its tokens.
//!
//! A session says what is to be done next, and is told what came of it. Whoever drives it holds the
//! lock of the authority from the start of an operation to its end, and does nothing that the session
//! has not asked for.
use crate::auth::types;
use crate::auth::types::TokenSet;
use crate::client::authority::tokens_equal;
use crate::client::authority::AuthorityResult;
use crate::client::authority::AuthorityState;
use crate::client::authority::StrictState;
use crate::client::authority::TokenAuthorityError;
use vstd::prelude::*;

verus! {

/// An operation.
#[derive(Debug, Clone, Copy, PartialEq, Eq, Structural)]
pub enum StrictRequest {
    /// Takes up the tokens that the authority has.
    Connect,
    /// Asks for tokens that have not expired.
    EnsureToken,
    /// Asks for new tokens in place of those that the authority has.
    ForceRefresh,
    /// Exchanges a grant for tokens.
    Login,
    /// Gives the tokens up.
    Logout,
    /// Takes up what the authority has after the host has settled what was uncertain.
    Reconcile,
}

/// What is to be done next.
pub enum StrictAction {
    /// Load the state of the authority.
    Load,
    /// Have the authority mark a rotation as pending.
    BeginRotation,
    /// Ask for new tokens: with the tokens that the authority has, or with a grant where none are handed
    /// out.
    Exchange(Option<TokenSet>),
    /// Have the authority commit the tokens.
    CommitRotation(TokenSet),
    /// Have the authority clear its tokens.
    Clear,
    /// The operation has ended.
    Finish(AuthorityResult<StrictOutcome>),
}

/// What came of an operation.
pub enum StrictOutcome {
    /// These tokens may be used.
    Authorized(TokenSet),
    /// There are no tokens.
    Unauthenticated,
    /// The tokens are gone. Those that there were may be revoked.
    LoggedOut(Option<TokenSet>),
}

/// What came of an action.
pub enum StrictReply {
    /// What was loaded, and whether the tokens in it have expired.
    Loaded(AuthorityResult<AuthorityState>, bool),
    Began(AuthorityResult<()>),
    Exchanged(AuthorityResult<TokenSet>),
    Committed(AuthorityResult<()>),
    Cleared(AuthorityResult<()>),
    /// The operation was cancelled while the action was under way.
    Cancelled,
}

/// Where an operation stands: which reply it waits for.
pub enum Stage {
    Idle,
    Loading(StrictRequest),
    Beginning(Option<TokenSet>),
    Exchanging,
    Committing(TokenSet),
    ReadingBack(TokenSet),
    Clearing(Option<TokenSet>),
    VerifyingClear(Option<TokenSet>),
}

/// A client of an authority.
pub struct StrictSession<A> {
    state: StrictState<A>,
    cache: Option<TokenSet>,
    stage: Stage,
}

/// What a [`Stage`] holds.
pub ghost enum StageView {
    Idle,
    Loading(StrictRequest),
    Beginning(Option<types::TokenSetView>),
    Exchanging,
    Committing(types::TokenSetView),
    ReadingBack(types::TokenSetView),
    Clearing(Option<types::TokenSetView>),
    VerifyingClear(Option<types::TokenSetView>),
}

/// What a session holds.
pub ghost struct SessionView {
    /// No token may be used.
    pub blocked: bool,
    /// The tokens that may be used.
    pub cache: Option<types::TokenSetView>,
    pub stage: StageView,
}

/// What an [`AuthorityState`] holds.
pub ghost enum AuthorityView {
    Ready(types::TokenSetView),
    Missing,
    RotationPending,
}

/// What a [`StrictOutcome`] holds.
pub ghost enum OutcomeView {
    Authorized(types::TokenSetView),
    Unauthenticated,
    LoggedOut(Option<types::TokenSetView>),
}

/// What a [`StrictAction`] holds.
pub ghost enum ActionView {
    Load,
    BeginRotation,
    Exchange(Option<types::TokenSetView>),
    CommitRotation(types::TokenSetView),
    Clear,
    Finish(AuthorityResult<OutcomeView>),
}

/// What a [`StrictReply`] holds.
pub ghost enum ReplyView {
    Loaded(AuthorityResult<AuthorityView>, bool),
    Began(AuthorityResult<()>),
    Exchanged(AuthorityResult<types::TokenSetView>),
    Committed(AuthorityResult<()>),
    Cleared(AuthorityResult<()>),
    Cancelled,
}

impl View for AuthorityState {
    type V = AuthorityView;

    open spec fn view(&self) -> AuthorityView {
        match self {
            AuthorityState::Ready(tokens) => AuthorityView::Ready(tokens@),
            AuthorityState::Missing => AuthorityView::Missing,
            AuthorityState::RotationPending => AuthorityView::RotationPending,
        }
    }
}

impl View for StrictOutcome {
    type V = OutcomeView;

    open spec fn view(&self) -> OutcomeView {
        match self {
            StrictOutcome::Authorized(tokens) => OutcomeView::Authorized(tokens@),
            StrictOutcome::Unauthenticated => OutcomeView::Unauthenticated,
            StrictOutcome::LoggedOut(tokens) => OutcomeView::LoggedOut(tokens.deep_view()),
        }
    }
}

impl View for StrictAction {
    type V = ActionView;

    open spec fn view(&self) -> ActionView {
        match self {
            StrictAction::Load => ActionView::Load,
            StrictAction::BeginRotation => ActionView::BeginRotation,
            StrictAction::Exchange(tokens) => ActionView::Exchange(tokens.deep_view()),
            StrictAction::CommitRotation(tokens) => ActionView::CommitRotation(tokens@),
            StrictAction::Clear => ActionView::Clear,
            StrictAction::Finish(Ok(outcome)) => ActionView::Finish(Ok(outcome@)),
            StrictAction::Finish(Err(error)) => ActionView::Finish(Err(*error)),
        }
    }
}

impl View for StrictReply {
    type V = ReplyView;

    open spec fn view(&self) -> ReplyView {
        match self {
            StrictReply::Loaded(Ok(state), expired) => ReplyView::Loaded(Ok(state@), *expired),
            StrictReply::Loaded(Err(error), expired) => ReplyView::Loaded(Err(*error), *expired),
            StrictReply::Began(result) => ReplyView::Began(*result),
            StrictReply::Exchanged(Ok(tokens)) => ReplyView::Exchanged(Ok(tokens@)),
            StrictReply::Exchanged(Err(error)) => ReplyView::Exchanged(Err(*error)),
            StrictReply::Committed(result) => ReplyView::Committed(*result),
            StrictReply::Cleared(result) => ReplyView::Cleared(*result),
            StrictReply::Cancelled => ReplyView::Cancelled,
        }
    }
}

impl View for Stage {
    type V = StageView;

    open spec fn view(&self) -> StageView {
        match self {
            Stage::Idle => StageView::Idle,
            Stage::Loading(request) => StageView::Loading(*request),
            Stage::Beginning(tokens) => StageView::Beginning(tokens.deep_view()),
            Stage::Exchanging => StageView::Exchanging,
            Stage::Committing(tokens) => StageView::Committing(tokens@),
            Stage::ReadingBack(tokens) => StageView::ReadingBack(tokens@),
            Stage::Clearing(tokens) => StageView::Clearing(tokens.deep_view()),
            Stage::VerifyingClear(tokens) => StageView::VerifyingClear(tokens.deep_view()),
        }
    }
}

impl<A> View for StrictSession<A> {
    type V = SessionView;

    closed spec fn view(&self) -> SessionView {
        SessionView {
            blocked: self.state.is_blocked(),
            cache: self.cache.deep_view(),
            stage: self.stage@,
        }
    }
}

/// A session that has not been told anything.
pub open spec fn fresh() -> SessionView {
    SessionView { blocked: false, cache: None, stage: StageView::Idle }
}

/// The operation ends with an error; what the session holds stays.
pub open spec fn fails(s: SessionView, error: TokenAuthorityError) -> (SessionView, ActionView) {
    (SessionView { stage: StageView::Idle, ..s }, ActionView::Finish(Err(error)))
}

/// The operation ends with an error, and the session holds no tokens any more.
pub open spec fn drops(s: SessionView, error: TokenAuthorityError) -> (SessionView, ActionView) {
    (
        SessionView { cache: None, stage: StageView::Idle, ..s },
        ActionView::Finish(Err(error)),
    )
}

/// The operation ends, and the tokens may be used.
pub open spec fn publishes(tokens: types::TokenSetView) -> (SessionView, ActionView) {
    (
        SessionView { blocked: false, cache: Some(tokens), stage: StageView::Idle },
        ActionView::Finish(Ok(OutcomeView::Authorized(tokens))),
    )
}

/// The operation goes on, while no token may be used.
pub open spec fn blocks(stage: StageView, action: ActionView) -> (SessionView, ActionView) {
    (SessionView { blocked: true, cache: None, stage }, action)
}

/// The start of an operation. A session that is blocked refuses all but reconciliation.
pub open spec fn on_start(s: SessionView, request: StrictRequest) -> (SessionView, ActionView) {
    if s.blocked && request != StrictRequest::Reconcile {
        fails(s, TokenAuthorityError::ReconciliationRequired)
    } else {
        (SessionView { stage: StageView::Loading(request), ..s }, ActionView::Load)
    }
}

/// What the state of the authority means to an operation.
pub open spec fn on_loaded(
    s: SessionView,
    request: StrictRequest,
    loaded: AuthorityResult<AuthorityView>,
    expired: bool,
) -> (SessionView, ActionView) {
    match loaded {
        Err(error) => drops(s, error),
        Ok(AuthorityView::RotationPending) => drops(s, TokenAuthorityError::RotationPending),
        Ok(AuthorityView::Missing) => match request {
            StrictRequest::Connect | StrictRequest::Reconcile => (
                SessionView { cache: None, stage: StageView::Idle, ..s },
                ActionView::Finish(Ok(OutcomeView::Unauthenticated)),
            ),
            StrictRequest::EnsureToken | StrictRequest::ForceRefresh => drops(
                s,
                TokenAuthorityError::Missing,
            ),
            StrictRequest::Login => blocks(StageView::Beginning(None), ActionView::BeginRotation),
            StrictRequest::Logout => blocks(StageView::Clearing(None), ActionView::Clear),
        },
        Ok(AuthorityView::Ready(tokens)) => match request {
            StrictRequest::Connect | StrictRequest::Reconcile => publishes(tokens),
            StrictRequest::EnsureToken => if expired {
                blocks(StageView::Beginning(Some(tokens)), ActionView::BeginRotation)
            } else {
                publishes(tokens)
            },
            StrictRequest::ForceRefresh => blocks(
                StageView::Beginning(Some(tokens)),
                ActionView::BeginRotation,
            ),
            StrictRequest::Login => blocks(StageView::Beginning(None), ActionView::BeginRotation),
            StrictRequest::Logout => blocks(StageView::Clearing(Some(tokens)), ActionView::Clear),
        },
    }
}

/// What a reply means to the operation that waited for it. One that it did not wait for ends it.
pub open spec fn on_reply(s: SessionView, reply: ReplyView) -> (SessionView, ActionView) {
    match (s.stage, reply) {
        (StageView::Loading(request), ReplyView::Loaded(loaded, expired)) => on_loaded(
            s,
            request,
            loaded,
            expired,
        ),
        (StageView::Beginning(tokens), ReplyView::Began(Ok(_))) => (
            SessionView { stage: StageView::Exchanging, ..s },
            ActionView::Exchange(tokens),
        ),
        (StageView::Beginning(_), ReplyView::Began(Err(error))) => fails(s, error),
        (StageView::Exchanging, ReplyView::Exchanged(Ok(tokens))) => (
            SessionView { stage: StageView::Committing(tokens), ..s },
            ActionView::CommitRotation(tokens),
        ),
        (StageView::Exchanging, ReplyView::Exchanged(Err(error))) => fails(s, error),
        (StageView::Committing(tokens), ReplyView::Committed(Ok(_))) => (
            SessionView { stage: StageView::ReadingBack(tokens), ..s },
            ActionView::Load,
        ),
        (StageView::Committing(_), ReplyView::Committed(Err(error))) => fails(s, error),
        (StageView::ReadingBack(_), ReplyView::Loaded(Err(error), _)) => fails(s, error),
        (StageView::ReadingBack(tokens), ReplyView::Loaded(Ok(loaded), _)) => if loaded
            == AuthorityView::Ready(tokens) {
            publishes(tokens)
        } else {
            fails(s, TokenAuthorityError::CommitUnverified)
        },
        (StageView::Clearing(tokens), ReplyView::Cleared(Ok(_))) => (
            SessionView { stage: StageView::VerifyingClear(tokens), ..s },
            ActionView::Load,
        ),
        (StageView::Clearing(_), ReplyView::Cleared(Err(error))) => fails(s, error),
        (StageView::VerifyingClear(_), ReplyView::Loaded(Err(error), _)) => fails(s, error),
        (StageView::VerifyingClear(tokens), ReplyView::Loaded(Ok(loaded), _)) => if loaded
            == AuthorityView::Missing {
            (fresh(), ActionView::Finish(Ok(OutcomeView::LoggedOut(tokens))))
        } else {
            fails(s, TokenAuthorityError::CommitUnverified)
        },
        _ => fails(s, TokenAuthorityError::Unavailable),
    }
}

fn clone_tokens(tokens: &Option<TokenSet>) -> (clone: Option<TokenSet>)
    ensures
        clone.deep_view() == tokens.deep_view(),
{
    match tokens {
        Some(tokens) => Some(tokens.clone()),
        None => None,
    }
}

impl<A> StrictSession<A> {
    /// A session of an authority, without tokens.
    pub fn new(authority: A) -> (session: StrictSession<A>)
        ensures
            session@ == fresh(),
            session.holder() == authority,
    {
        StrictSession { state: StrictState::new(authority), cache: None, stage: Stage::Idle }
    }

    /// The authority.
    pub fn authority(&self) -> (authority: &A)
        ensures
            *authority == self.holder(),
    {
        self.state.authority()
    }

    /// The authority.
    pub closed spec fn holder(self) -> A {
        self.state.holder()
    }

    /// Whether the session holds tokens. This is what was last seen of the authority, no more.
    pub fn is_authorized(&self) -> (authorized: bool)
        ensures
            authorized == (self@.cache is Some),
    {
        self.cache.is_some()
    }

    /// The tokens that the session holds. This is what was last seen of the authority, no more.
    pub fn token_set(&self) -> (tokens: Option<TokenSet>)
        ensures
            tokens.deep_view() == self@.cache,
    {
        clone_tokens(&self.cache)
    }

    fn fail(&mut self, error: TokenAuthorityError) -> (action: StrictAction)
        ensures
            (final(self)@, action@) == fails(old(self)@, error),
            final(self).holder() == old(self).holder(),
    {
        self.stage = Stage::Idle;
        StrictAction::Finish(Err(error))
    }

    fn drop_tokens(&mut self, error: TokenAuthorityError) -> (action: StrictAction)
        ensures
            (final(self)@, action@) == drops(old(self)@, error),
            final(self).holder() == old(self).holder(),
    {
        self.cache = None;
        self.stage = Stage::Idle;
        StrictAction::Finish(Err(error))
    }

    fn publish(&mut self, tokens: TokenSet) -> (action: StrictAction)
        ensures
            (final(self)@, action@) == publishes(tokens@),
            final(self).holder() == old(self).holder(),
    {
        self.state.reconcile();
        self.cache = Some(tokens.clone());
        self.stage = Stage::Idle;
        StrictAction::Finish(Ok(StrictOutcome::Authorized(tokens)))
    }

    fn hold(&mut self, stage: Stage, action: StrictAction) -> (next: StrictAction)
        ensures
            (final(self)@, next@) == blocks(stage@, action@),
            next == action,
            final(self).holder() == old(self).holder(),
    {
        self.cache = None;
        self.state.block();
        self.stage = stage;
        action
    }

    /// Starts an operation, and says what is to be done first.
    pub fn start(&mut self, request: StrictRequest) -> (action: StrictAction)
        ensures
            (final(self)@, action@) == on_start(old(self)@, request),
            final(self).holder() == old(self).holder(),
    {
        match self.state.check() {
            Err(error) if request != StrictRequest::Reconcile => self.fail(error),
            _ => {
                self.stage = Stage::Loading(request);
                StrictAction::Load
            },
        }
    }

    fn loaded(
        &mut self,
        request: StrictRequest,
        loaded: AuthorityResult<AuthorityState>,
        expired: bool,
    ) -> (action: StrictAction)
        ensures
            (final(self)@, action@) == on_loaded(
                old(self)@,
                request,
                match loaded {
                    Ok(state) => Ok(state@),
                    Err(error) => Err(error),
                },
                expired,
            ),
            final(self).holder() == old(self).holder(),
    {
        match loaded {
            Err(error) => self.drop_tokens(error),
            Ok(AuthorityState::RotationPending) => self.drop_tokens(
                TokenAuthorityError::RotationPending,
            ),
            Ok(AuthorityState::Missing) => match request {
                StrictRequest::Connect | StrictRequest::Reconcile => {
                    self.cache = None;
                    self.stage = Stage::Idle;
                    StrictAction::Finish(Ok(StrictOutcome::Unauthenticated))
                },
                StrictRequest::EnsureToken | StrictRequest::ForceRefresh => self.drop_tokens(
                    TokenAuthorityError::Missing,
                ),
                StrictRequest::Login => self.hold(
                    Stage::Beginning(None),
                    StrictAction::BeginRotation,
                ),
                StrictRequest::Logout => self.hold(Stage::Clearing(None), StrictAction::Clear),
            },
            Ok(AuthorityState::Ready(tokens)) => match request {
                StrictRequest::Connect | StrictRequest::Reconcile => self.publish(tokens),
                StrictRequest::EnsureToken => if expired {
                    self.hold(Stage::Beginning(Some(tokens)), StrictAction::BeginRotation)
                } else {
                    self.publish(tokens)
                },
                StrictRequest::ForceRefresh => self.hold(
                    Stage::Beginning(Some(tokens)),
                    StrictAction::BeginRotation,
                ),
                StrictRequest::Login => self.hold(
                    Stage::Beginning(None),
                    StrictAction::BeginRotation,
                ),
                StrictRequest::Logout => self.hold(
                    Stage::Clearing(Some(tokens)),
                    StrictAction::Clear,
                ),
            },
        }
    }

    fn read_back(&mut self, tokens: TokenSet, loaded: AuthorityState) -> (action: StrictAction)
        ensures
            (final(self)@, action@) == (if loaded@ == AuthorityView::Ready(tokens@) {
                publishes(tokens@)
            } else {
                fails(old(self)@, TokenAuthorityError::CommitUnverified)
            }),
            final(self).holder() == old(self).holder(),
    {
        match loaded {
            AuthorityState::Ready(found) => if tokens_equal(&found, &tokens) {
                self.publish(tokens)
            } else {
                self.fail(TokenAuthorityError::CommitUnverified)
            },
            _ => self.fail(TokenAuthorityError::CommitUnverified),
        }
    }

    fn verify_clear(&mut self, tokens: Option<TokenSet>, loaded: AuthorityState) -> (action:
        StrictAction)
        ensures
            (final(self)@, action@) == (if loaded@ == AuthorityView::Missing {
                (
                    fresh(),
                    ActionView::Finish(Ok(OutcomeView::LoggedOut(tokens.deep_view()))),
                )
            } else {
                fails(old(self)@, TokenAuthorityError::CommitUnverified)
            }),
            final(self).holder() == old(self).holder(),
    {
        match loaded {
            AuthorityState::Missing => {
                self.state.reconcile();
                self.cache = None;
                self.stage = Stage::Idle;
                StrictAction::Finish(Ok(StrictOutcome::LoggedOut(tokens)))
            },
            _ => self.fail(TokenAuthorityError::CommitUnverified),
        }
    }

    /// Takes what came of the last action, and says what is to be done next.
    pub fn resume(&mut self, reply: StrictReply) -> (action: StrictAction)
        ensures
            (final(self)@, action@) == on_reply(old(self)@, reply@),
            final(self).holder() == old(self).holder(),
    {
        let mut stage: Stage = Stage::Idle;
        std::mem::swap(&mut stage, &mut self.stage);
        match (stage, reply) {
            (Stage::Loading(request), StrictReply::Loaded(loaded, expired)) => self.loaded(
                request,
                loaded,
                expired,
            ),
            (Stage::Beginning(tokens), StrictReply::Began(Ok(_))) => {
                self.stage = Stage::Exchanging;
                StrictAction::Exchange(tokens)
            },
            (Stage::Beginning(_), StrictReply::Began(Err(error))) => self.fail(error),
            (Stage::Exchanging, StrictReply::Exchanged(Ok(tokens))) => {
                self.stage = Stage::Committing(tokens.clone());
                StrictAction::CommitRotation(tokens)
            },
            (Stage::Exchanging, StrictReply::Exchanged(Err(error))) => self.fail(error),
            (Stage::Committing(tokens), StrictReply::Committed(Ok(_))) => {
                self.stage = Stage::ReadingBack(tokens);
                StrictAction::Load
            },
            (Stage::Committing(_), StrictReply::Committed(Err(error))) => self.fail(error),
            (Stage::ReadingBack(_), StrictReply::Loaded(Err(error), _)) => self.fail(error),
            (Stage::ReadingBack(tokens), StrictReply::Loaded(Ok(loaded), _)) => self.read_back(
                tokens,
                loaded,
            ),
            (Stage::Clearing(tokens), StrictReply::Cleared(Ok(_))) => {
                self.stage = Stage::VerifyingClear(tokens);
                StrictAction::Load
            },
            (Stage::Clearing(_), StrictReply::Cleared(Err(error))) => self.fail(error),
            (Stage::VerifyingClear(_), StrictReply::Loaded(Err(error), _)) => self.fail(error),
            (Stage::VerifyingClear(tokens), StrictReply::Loaded(Ok(loaded), _)) => self.verify_clear(
                tokens,
                loaded,
            ),
            _ => self.fail(TokenAuthorityError::Unavailable),
        }
    }
}

} // verus!
