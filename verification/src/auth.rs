//! The authentication service: a session is told which account acts on it.

pub mod meta;

use vstd::prelude::*;
use crate::account::meta::AccountService;
use crate::account::{AccountCall, AccountServer};
use crate::ids::AccountId;
use crate::rpc::{initial_version, DelegationError, Invocation, ProcedureId};
use crate::session::{Account, Session};
use self::meta::{AuthenticationProcedureId, AuthenticationService};

verus! {

/// The context of a failed authentication.
#[derive(Debug, Clone, Copy, PartialEq, Eq, Hash, Structural)]
pub struct AuthenticationError;

impl AuthenticationError {
    pub fn message(&self) -> (text: &'static str)
        ensures
            text@ == "unable to authenticate user"@,
    {
        "unable to authenticate user"
    }
}

/// The session after `actor_id` authenticated on it.
pub open spec fn authenticated(session: Session, actor_id: AccountId) -> Session {
    session.with_account(Account { actor_id: Some(actor_id) })
}

/// The server side of the authentication service.
#[derive(Debug, Clone, Copy, PartialEq, Eq, Hash)]
pub struct AuthenticationServer;

impl AuthenticationServer {
    /// Makes `actor_id` the actor of the session; authentication always succeeds.
    pub fn authenticate(&self, session: &mut Session, actor_id: AccountId) -> (result: Result<
        (),
        AuthenticationError,
    >)
        ensures
            *final(session) == authenticated(*old(session), actor_id),
            result == Ok::<(), AuthenticationError>(()),
    {
        session.update(Account { actor_id: Some(actor_id) });
        Ok(())
    }
}

/// After an account authenticated on a session, it is the session's actor: account
/// requests on the session act on its behalf and are not refused for want of
/// authentication, whoever was authenticated before.
pub proof fn lemma_authenticated_session_acts_as_account(
    session: Session,
    actor_id: AccountId,
    call: AccountCall,
)
    ensures
        AccountServer::spec_actor(authenticated(session, actor_id)) == Ok::<
            AccountId,
            crate::account::AccountReport,
        >(actor_id),
        AccountServer::spec_start(call, authenticated(session, actor_id)).1 !is Respond,
        authenticated(session, actor_id).request_info == session.request_info,
{
}

/// The procedure a request names, or the error for an identifier the service lacks.
pub open spec fn spec_route_authentication_procedure(id: ProcedureId) -> Result<
    AuthenticationProcedureId,
    DelegationError,
> {
    match AuthenticationProcedureId::spec_from_id(id) {
        Some(procedure) => Ok(procedure),
        None => Err(DelegationError::UnknownProcedure { procedure: id }),
    }
}

/// Hands requests for the authentication service to the service implementation `inner`.
#[derive(Debug, Clone, Copy, PartialEq, Eq, Hash)]
pub struct AuthenticationDelegate<T> {
    inner: T,
}

impl<T> AuthenticationDelegate<T> {
    pub closed spec fn spec_inner(&self) -> T {
        self.inner
    }

    pub fn new(inner: T) -> (delegate: Self)
        ensures
            delegate.spec_inner() == inner,
    {
        AuthenticationDelegate { inner }
    }

    /// The service implementation that requests are handed to.
    pub fn inner(&self) -> (inner: &T)
        ensures
            *inner == self.spec_inner(),
    {
        &self.inner
    }

    /// The procedure that serves a request for `id`.
    pub fn route(&self, id: ProcedureId) -> (procedure: Result<
        AuthenticationProcedureId,
        DelegationError,
    >)
        ensures
            procedure == spec_route_authentication_procedure(id),
    {
        match AuthenticationProcedureId::from_id(id) {
            Some(procedure) => Ok(procedure),
            None => Err(DelegationError::UnknownProcedure { procedure: id }),
        }
    }
}

/// The client side of the authentication service.
#[derive(Debug, Clone, Copy, PartialEq, Eq, Hash)]
pub struct AuthenticationClient;

impl AuthenticationClient {
    pub open spec fn spec_invocation() -> Invocation {
        Invocation {
            service: AuthenticationService::spec_id(),
            version: initial_version(),
            procedure: AuthenticationProcedureId::Authenticate.spec_into_id(),
        }
    }

    /// What the client sends ahead of an authentication: the authentication service, its
    /// version, and the identifier of `Authenticate`.
    pub fn invocation(&self) -> (invocation: Invocation)
        ensures
            invocation == Self::spec_invocation(),
    {
        Invocation {
            service: AuthenticationService::id(),
            version: AuthenticationService::version(),
            procedure: AuthenticationProcedureId::Authenticate.into_id(),
        }
    }
}

/// What the authentication client sends reaches `Authenticate` at the server's delegate,
/// and the two services are told apart by their identifiers.
pub proof fn lemma_authentication_client_and_delegate_agree()
    ensures
        spec_route_authentication_procedure(AuthenticationClient::spec_invocation().procedure)
            == Ok::<_, DelegationError>(AuthenticationProcedureId::Authenticate),
        AuthenticationService::spec_id() != AccountService::spec_id(),
{
}

} // verus!
