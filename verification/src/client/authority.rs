//! Tokens whose authority lies outside of the client.
use crate::auth::types::TokenSet;
use crate::shared::errors;
use crate::shared::errors::Error;
use crate::shared::text::same_text;
use vstd::prelude::*;

verus! {

/// What an authority holds. A rotation that is pending stays so across clients and restarts.
pub enum AuthorityState {
    Ready(TokenSet),
    Missing,
    RotationPending,
}

/// The failures of an authority. None carries a payload, so none can leak one.
#[derive(Debug, Clone, Copy, PartialEq, Eq, Structural)]
pub enum TokenAuthorityError {
    Unavailable,
    Missing,
    RotationPending,
    ReconciliationRequired,
    CommitUnverified,
}

pub type AuthorityResult<T> = std::result::Result<T, TokenAuthorityError>;

/// The stable code of a failure.
pub open spec fn authority_code(error: TokenAuthorityError) -> Seq<char> {
    match error {
        TokenAuthorityError::Unavailable => "token_authority_unavailable"@,
        TokenAuthorityError::Missing => "token_authority_missing"@,
        TokenAuthorityError::RotationPending => "token_authority_rotation_pending"@,
        TokenAuthorityError::ReconciliationRequired => "token_authority_reconciliation_required"@,
        TokenAuthorityError::CommitUnverified => "token_authority_commit_unverified"@,
    }
}

impl TokenAuthorityError {
    /// The stable code of the failure.
    pub fn code(self) -> (code: &'static str)
        ensures
            code@ == authority_code(self),
    {
        match self {
            TokenAuthorityError::Unavailable => "token_authority_unavailable",
            TokenAuthorityError::Missing => "token_authority_missing",
            TokenAuthorityError::RotationPending => "token_authority_rotation_pending",
            TokenAuthorityError::ReconciliationRequired => "token_authority_reconciliation_required",
            TokenAuthorityError::CommitUnverified => "token_authority_commit_unverified",
        }
    }
}

impl vstd::std_specs::convert::FromSpecImpl<TokenAuthorityError> for Error {
    open spec fn obeys_from_spec() -> bool {
        false
    }

    open spec fn from_spec(value: TokenAuthorityError) -> Error {
        arbitrary()
    }
}

impl From<TokenAuthorityError> for Error {
    fn from(value: TokenAuthorityError) -> (error: Error)
        ensures
            error@ == errors::ErrorView::Other(authority_code(value)),
    {
        Error::other(value.code().to_string())
    }
}

/// An authority, and whether the client may use tokens of it.
pub struct StrictState<A> {
    pub authority: A,
    /// The client may not use tokens.
    pub blocked: bool,
}

impl<A> StrictState<A> {
    /// The authority.
    pub open spec fn holder(self) -> A {
        self.authority
    }

    /// The client may not use tokens.
    pub open spec fn is_blocked(self) -> bool {
        self.blocked
    }

    /// A client that may use tokens.
    pub fn new(authority: A) -> (state: StrictState<A>)
        ensures
            state.holder() == authority,
            !state.is_blocked(),
    {
        StrictState { authority, blocked: false }
    }

    /// The authority.
    pub fn authority(&self) -> (authority: &A)
        ensures
            *authority == self.holder(),
    {
        &self.authority
    }

    /// Refuses, where the client may not use tokens.
    pub fn check(&self) -> (result: AuthorityResult<()>)
        ensures
            result == (if self.is_blocked() {
                Err(TokenAuthorityError::ReconciliationRequired)
            } else {
                Ok(())
            }),
    {
        if self.blocked {
            Err(TokenAuthorityError::ReconciliationRequired)
        } else {
            Ok(())
        }
    }

    /// From now on the client may not use tokens.
    pub fn block(&mut self)
        ensures
            final(self).is_blocked(),
            final(self).holder() == old(self).holder(),
    {
        self.blocked = true;
    }

    /// From now on the client may use tokens.
    pub fn reconcile(&mut self)
        ensures
            !final(self).is_blocked(),
            final(self).holder() == old(self).holder(),
    {
        self.blocked = false;
    }
}

/// Whether two sets of tokens are the same in all that they hold.
pub fn tokens_equal(a: &TokenSet, b: &TokenSet) -> (equal: bool)
    ensures
        equal == (a@ == b@),
{
    same_text(a.access_token.as_str(), b.access_token.as_str()) && same_text(
        a.refresh_token.as_str(),
        b.refresh_token.as_str(),
    ) && same_text(a.expires_at.as_str(), b.expires_at.as_str()) && same_text(
        a.scope.as_str(),
        b.scope.as_str(),
    ) && same_text(a.client_id.as_str(), b.client_id.as_str()) && same_text(
        a.server_url.as_str(),
        b.server_url.as_str(),
    )
}

} // verus!
