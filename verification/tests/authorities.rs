//! Sessions with an authority over tokens.
use acosmi::auth::types::TokenSet;
use acosmi::client::authority::tokens_equal;
use acosmi::client::authority::AuthorityResult;
use acosmi::client::authority::AuthorityState;
use acosmi::client::authority::StrictState;
use acosmi::client::authority::TokenAuthorityError;
use acosmi::client::session::StrictAction;
use acosmi::client::session::StrictOutcome;
use acosmi::client::session::StrictReply;
use acosmi::client::session::StrictRequest;
use acosmi::client::session::StrictSession;
use acosmi::shared::errors::Error;

fn token(access: &str) -> TokenSet {
    TokenSet {
        access_token: access.to_string(),
        refresh_token: format!("refresh-{access}"),
        expires_at: "2099-01-01T00:00:00Z".to_string(),
        scope: "ai".to_string(),
        client_id: "client".to_string(),
        server_url: "https://authority.invalid".to_string(),
    }
}

#[derive(Clone, Copy, PartialEq)]
enum Fault {
    Nothing,
    Load,
    Begin,
    Token,
    Commit,
    Clear,
    BadReadback,
    LostReadback,
    CancelBegin,
    CancelToken,
    CancelCommit,
    CancelClear,
}

enum Held {
    Ready(TokenSet),
    Missing,
    Pending,
}

struct Authority {
    held: Held,
    expired: bool,
    fault: Fault,
    committed: bool,
    exchanges: usize,
    log: Vec<&'static str>,
}

impl Authority {
    fn new(held: Held, expired: bool) -> Self {
        Authority { held, expired, fault: Fault::Nothing, committed: false, exchanges: 0, log: vec![] }
    }

    fn load(&mut self) -> StrictReply {
        self.log.push("load");
        if self.fault == Fault::Load || (self.fault == Fault::LostReadback && self.committed) {
            return StrictReply::Loaded(Err(TokenAuthorityError::Unavailable), false);
        }
        if self.fault == Fault::BadReadback && self.committed {
            return StrictReply::Loaded(Ok(AuthorityState::Ready(token("other"))), false);
        }
        let state = match &self.held {
            Held::Ready(tokens) => AuthorityState::Ready(tokens.clone()),
            Held::Missing => AuthorityState::Missing,
            Held::Pending => AuthorityState::RotationPending,
        };
        StrictReply::Loaded(Ok(state), self.expired)
    }

    fn perform(&mut self, action: StrictAction) -> StrictReply {
        match action {
            StrictAction::Load => self.load(),
            StrictAction::BeginRotation => {
                self.log.push("begin");
                self.held = Held::Pending;
                match self.fault {
                    Fault::Begin => StrictReply::Began(Err(TokenAuthorityError::Unavailable)),
                    Fault::CancelBegin => StrictReply::Cancelled,
                    _ => StrictReply::Began(Ok(())),
                }
            }
            StrictAction::Exchange(_) => {
                assert!(matches!(self.held, Held::Pending), "pending must come before the exchange");
                self.log.push("token");
                self.exchanges += 1;
                match self.fault {
                    Fault::Token => StrictReply::Exchanged(Err(TokenAuthorityError::Unavailable)),
                    Fault::CancelToken => StrictReply::Cancelled,
                    _ => StrictReply::Exchanged(Ok(token("new-access"))),
                }
            }
            StrictAction::CommitRotation(tokens) => {
                self.log.push("commit");
                match self.fault {
                    Fault::Commit => StrictReply::Committed(Err(TokenAuthorityError::Unavailable)),
                    Fault::CancelCommit => StrictReply::Cancelled,
                    _ => {
                        self.held = Held::Ready(tokens);
                        self.expired = false;
                        self.committed = true;
                        StrictReply::Committed(Ok(()))
                    }
                }
            }
            StrictAction::Clear => {
                self.log.push("clear");
                match self.fault {
                    Fault::Clear => StrictReply::Cleared(Err(TokenAuthorityError::Unavailable)),
                    Fault::CancelClear => StrictReply::Cancelled,
                    _ => {
                        self.held = Held::Missing;
                        StrictReply::Cleared(Ok(()))
                    }
                }
            }
            StrictAction::Finish(_) => unreachable!(),
        }
    }

    fn run(
        &mut self,
        session: &mut StrictSession<()>,
        request: StrictRequest,
    ) -> AuthorityResult<StrictOutcome> {
        let mut action = session.start(request);
        loop {
            if let StrictAction::Finish(result) = action {
                return result;
            }
            let reply = self.perform(action);
            action = session.resume(reply);
        }
    }

    fn connect(&mut self) -> AuthorityResult<StrictSession<()>> {
        let mut session = StrictSession::new(());
        self.run(&mut session, StrictRequest::Connect).map(|_| session)
    }

    fn ensure(&mut self, session: &mut StrictSession<()>) -> AuthorityResult<String> {
        match self.run(session, StrictRequest::EnsureToken) {
            Ok(StrictOutcome::Authorized(tokens)) => Ok(tokens.access_token),
            Ok(_) => panic!("no tokens"),
            Err(error) => Err(error),
        }
    }
}

#[test]
fn unexpired_tokens_are_loaded_anew_and_never_taken_from_the_cache() {
    let mut a = Authority::new(Held::Ready(token("first")), false);
    let mut c = a.connect().unwrap();
    assert_eq!(a.ensure(&mut c).unwrap(), "first");
    a.held = Held::Ready(token("replacement"));
    assert_eq!(a.ensure(&mut c).unwrap(), "replacement");
    a.fault = Fault::Load;
    assert_eq!(a.ensure(&mut c), Err(TokenAuthorityError::Unavailable));
    assert!(c.token_set().is_none());
    a.fault = Fault::Nothing;
    a.held = Held::Missing;
    assert_eq!(a.ensure(&mut c), Err(TokenAuthorityError::Missing));
    assert!(!c.is_authorized());
    assert_eq!(a.exchanges, 0);
}

#[test]
fn rotation_is_pending_before_the_exchange_and_committed_before_tokens_are_published() {
    let mut a = Authority::new(Held::Ready(token("old")), true);
    let mut c = a.connect().unwrap();
    a.log.clear();
    assert_eq!(a.ensure(&mut c).unwrap(), "new-access");
    assert_eq!(a.log, ["load", "begin", "token", "commit", "load"]);
    assert_eq!(a.exchanges, 1);
    assert_eq!(a.ensure(&mut c).unwrap(), "new-access");
    assert_eq!(a.exchanges, 1);
}

#[test]
fn failed_rotation_blocks_this_session_and_new_ones() {
    for (fault, exchanges) in [
        (Fault::Begin, 0),
        (Fault::CancelBegin, 0),
        (Fault::Token, 1),
        (Fault::CancelToken, 1),
        (Fault::Commit, 1),
        (Fault::CancelCommit, 1),
    ] {
        let mut a = Authority::new(Held::Ready(token("old")), true);
        let mut c = a.connect().unwrap();
        a.fault = fault;
        assert!(a.ensure(&mut c).is_err());
        assert!(c.token_set().is_none());
        assert_eq!(a.ensure(&mut c), Err(TokenAuthorityError::ReconciliationRequired));
        assert!(a.run(&mut c, StrictRequest::ForceRefresh).is_err());
        assert!(a.connect().is_err());
        assert!(a.run(&mut c, StrictRequest::Reconcile).is_err());
        assert!(matches!(a.held, Held::Pending));
        assert_eq!(a.exchanges, exchanges);
    }
}

#[test]
fn readback_that_does_not_match_blocks_until_reconciled() {
    for fault in [Fault::BadReadback, Fault::LostReadback] {
        let mut a = Authority::new(Held::Ready(token("old")), true);
        let mut c = a.connect().unwrap();
        a.fault = fault;
        let expected = if fault == Fault::BadReadback {
            TokenAuthorityError::CommitUnverified
        } else {
            TokenAuthorityError::Unavailable
        };
        assert_eq!(a.ensure(&mut c), Err(expected));
        assert!(c.token_set().is_none());
        a.fault = Fault::Nothing;
        assert_eq!(a.ensure(&mut c), Err(TokenAuthorityError::ReconciliationRequired));
        assert_eq!(a.exchanges, 1);
        let outcome = a.run(&mut c, StrictRequest::Reconcile).unwrap();
        assert!(matches!(outcome, StrictOutcome::Authorized(_)));
        assert_eq!(a.ensure(&mut c).unwrap(), "new-access");
        assert_eq!(a.exchanges, 1);
    }
}

#[test]
fn logout_that_fails_blocks_and_pending_is_not_cleared() {
    for fault in [Fault::Clear, Fault::CancelClear] {
        let mut a = Authority::new(Held::Ready(token("old")), false);
        let mut c = a.connect().unwrap();
        a.fault = fault;
        assert!(a.run(&mut c, StrictRequest::Logout).is_err());
        assert!(a.ensure(&mut c).is_err());
        assert!(c.token_set().is_none());
        assert_eq!(a.exchanges, 0);
    }
    let mut a = Authority::new(Held::Ready(token("old")), false);
    let mut c = a.connect().unwrap();
    a.held = Held::Pending;
    assert!(a.run(&mut c, StrictRequest::Logout).is_err());
    assert!(matches!(a.held, Held::Pending));
    assert!(!a.log.contains(&"clear"));
}

#[test]
fn logout_reads_back_that_tokens_are_gone() {
    let mut a = Authority::new(Held::Ready(token("old")), false);
    let mut c = a.connect().unwrap();
    a.log.clear();
    match a.run(&mut c, StrictRequest::Logout).unwrap() {
        StrictOutcome::LoggedOut(Some(tokens)) => assert_eq!(tokens.access_token, "old"),
        _ => panic!("no tokens to revoke"),
    }
    assert_eq!(a.log, ["load", "clear", "load"]);
    assert!(!c.is_authorized());
    assert_eq!(a.ensure(&mut c), Err(TokenAuthorityError::Missing));
}

#[test]
fn connecting_needs_an_authority_that_is_settled() {
    let mut a = Authority::new(Held::Missing, false);
    assert!(!a.connect().unwrap().is_authorized());
    a.fault = Fault::Load;
    assert!(a.connect().is_err());
    a.fault = Fault::Nothing;
    a.held = Held::Pending;
    assert!(a.connect().is_err());
}

#[test]
fn login_goes_through_the_same_rotation() {
    let mut a = Authority::new(Held::Missing, false);
    let mut c = a.connect().unwrap();
    a.log.clear();
    let outcome = a.run(&mut c, StrictRequest::Login).unwrap();
    assert!(matches!(outcome, StrictOutcome::Authorized(_)));
    assert_eq!(a.log, ["load", "begin", "token", "commit", "load"]);
    let mut a = Authority::new(Held::Missing, false);
    let mut c = a.connect().unwrap();
    a.fault = Fault::Commit;
    assert!(a.run(&mut c, StrictRequest::Login).is_err());
    assert!(c.token_set().is_none());
    assert!(a.ensure(&mut c).is_err());
}

#[test]
fn login_exchanges_a_grant_and_not_the_tokens_that_there_are() {
    for held in [AuthorityState::Ready(token("old")), AuthorityState::Missing] {
        let mut c = StrictSession::new(());
        assert!(matches!(c.start(StrictRequest::Login), StrictAction::Load));
        let action = c.resume(StrictReply::Loaded(Ok(held), false));
        assert!(matches!(action, StrictAction::BeginRotation));
        let action = c.resume(StrictReply::Began(Ok(())));
        assert!(matches!(action, StrictAction::Exchange(None)));
    }
    let mut c = StrictSession::new(());
    c.start(StrictRequest::ForceRefresh);
    c.resume(StrictReply::Loaded(Ok(AuthorityState::Ready(token("old"))), false));
    match c.resume(StrictReply::Began(Ok(()))) {
        StrictAction::Exchange(Some(tokens)) => assert_eq!(tokens.access_token, "old"),
        _ => panic!("the tokens are exchanged"),
    }
}

#[test]
fn session_keeps_its_authority() {
    let mut c = StrictSession::new("authority");
    assert_eq!(*c.authority(), "authority");
    c.start(StrictRequest::Logout);
    c.resume(StrictReply::Loaded(Ok(AuthorityState::Missing), false));
    c.resume(StrictReply::Cleared(Ok(())));
    c.resume(StrictReply::Loaded(Ok(AuthorityState::Missing), false));
    assert_eq!(*c.authority(), "authority");
    assert_eq!(*StrictState::new("other").authority(), "other");
}

#[test]
fn reconciling_only_reads() {
    let mut a = Authority::new(Held::Missing, false);
    let mut c = a.connect().unwrap();
    a.log.clear();
    let outcome = a.run(&mut c, StrictRequest::Reconcile).unwrap();
    assert!(matches!(outcome, StrictOutcome::Unauthenticated));
    assert_eq!(a.log, ["load"]);
}

#[test]
fn reply_that_was_not_waited_for_ends_the_operation() {
    let mut c = StrictSession::new(());
    let action = c.resume(StrictReply::Began(Ok(())));
    assert!(matches!(action, StrictAction::Finish(Err(TokenAuthorityError::Unavailable))));
}

#[test]
fn blocked_state_refuses_until_reconciled() {
    let mut state = StrictState::new("authority");
    assert_eq!(state.check(), Ok(()));
    state.block();
    assert_eq!(state.check(), Err(TokenAuthorityError::ReconciliationRequired));
    state.reconcile();
    assert_eq!(state.check(), Ok(()));
    assert_eq!(state.authority, "authority");
    assert!(!state.blocked);
}

#[test]
fn tokens_are_equal_in_all_they_hold() {
    assert!(tokens_equal(&token("a"), &token("a")));
    for i in 0..6 {
        let mut other = token("a");
        let field = match i {
            0 => &mut other.access_token,
            1 => &mut other.refresh_token,
            2 => &mut other.expires_at,
            3 => &mut other.scope,
            4 => &mut other.client_id,
            _ => &mut other.server_url,
        };
        field.push('x');
        assert!(!tokens_equal(&token("a"), &other));
    }
}

#[test]
fn authority_errors_have_stable_codes() {
    for (error, code) in [
        (TokenAuthorityError::Unavailable, "token_authority_unavailable"),
        (TokenAuthorityError::Missing, "token_authority_missing"),
        (TokenAuthorityError::RotationPending, "token_authority_rotation_pending"),
        (TokenAuthorityError::ReconciliationRequired, "token_authority_reconciliation_required"),
        (TokenAuthorityError::CommitUnverified, "token_authority_commit_unverified"),
    ] {
        assert_eq!(error.code(), code);
        assert_eq!(Error::from(error).message(), code);
    }
}
