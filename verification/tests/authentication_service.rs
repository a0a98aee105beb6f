use hash_graph_api::account::{AccountAction, AccountCall, AccountServer, InsertAccountIdParams};
use hash_graph_api::auth::meta::{
    AuthenticationProcedureId, AuthenticationService, ProcedureAuthenticate,
};
use hash_graph_api::auth::{
    AuthenticationClient, AuthenticationDelegate, AuthenticationError, AuthenticationServer,
};
use hash_graph_api::ids::AccountId;
use hash_graph_api::rpc::{
    DelegationError, Invocation, Metadata, ProcedureId, RequestInfo, ServiceId, Version,
};
use hash_graph_api::session::{Account, Session};

fn info() -> RequestInfo {
    RequestInfo { service: ServiceId::new(0), procedure: ProcedureId::new(0) }
}

#[test]
fn authenticate_sets_the_actor() {
    let mut session = Session::new(Account { actor_id: None }, info());
    assert_eq!(AuthenticationServer.authenticate(&mut session, AccountId(42)), Ok(()));
    assert_eq!(*session.get(), Account { actor_id: Some(AccountId(42)) });
    assert_eq!(session.request_info(), info());
    assert_eq!(AccountServer::actor(&session), Ok(AccountId(42)));
    let (_, first) = AccountServer.start(
        AccountCall::CreateAccount { params: InsertAccountIdParams { account_id: AccountId(1) } },
        &session,
    );
    assert_eq!(first, AccountAction::AcquireAuthorizationApi);
}

#[test]
fn authenticate_replaces_a_previous_actor() {
    let mut session = Session::new(Account { actor_id: Some(AccountId(1)) }, info());
    assert_eq!(AuthenticationServer.authenticate(&mut session, AccountId(2)), Ok(()));
    assert_eq!(session.get().actor_id, Some(AccountId(2)));
}

#[test]
fn authentication_procedure_ids() {
    let id = AuthenticationProcedureId::Authenticate.into_id();
    assert_eq!(id, ProcedureId::new(0));
    assert_eq!(AuthenticationProcedureId::from_id(id), Some(AuthenticationProcedureId::Authenticate));
    assert_eq!(AuthenticationProcedureId::from_id(ProcedureId::new(1)), None);
    assert_eq!(ProcedureAuthenticate::id(), AuthenticationProcedureId::Authenticate);
    assert_eq!(AuthenticationService::procedures(), vec![AuthenticationProcedureId::Authenticate]);
}

#[test]
fn authentication_metadata() {
    let initial = Metadata { since: Version { major: 0, minor: 0 }, deprecation: None };
    assert_eq!(AuthenticationService::id(), ServiceId::new(0));
    assert_eq!(AuthenticationService::version(), Version { major: 0, minor: 0 });
    assert_eq!(AuthenticationService::metadata(), initial);
    assert_eq!(ProcedureAuthenticate::metadata(), initial);
    assert_eq!(AuthenticationError.message(), "unable to authenticate user");
}

#[test]
fn authentication_client_and_delegate_agree() {
    let invocation = AuthenticationClient.invocation();
    assert_eq!(
        invocation,
        Invocation {
            service: ServiceId::new(0),
            version: Version { major: 0, minor: 0 },
            procedure: ProcedureId::new(0),
        }
    );
    let delegate = AuthenticationDelegate::new(AuthenticationServer);
    assert_eq!(*delegate.inner(), AuthenticationServer);
    assert_eq!(delegate.route(invocation.procedure), Ok(AuthenticationProcedureId::Authenticate));
    assert_eq!(
        delegate.route(ProcedureId::new(1)),
        Err(DelegationError::UnknownProcedure { procedure: ProcedureId::new(1) })
    );
}
