use hash_graph_api::account::meta::{
    AccountProcedureId, AccountService, ProcedureAddAccountGroupMember,
    ProcedureCheckAccountGroupPermission, ProcedureCreateAccount, ProcedureCreateAccountGroup,
    ProcedureRemoveAccountGroupMember,
};
use hash_graph_api::account::{
    AccountAction, AccountCall, AccountClient, AccountDelegate, AccountError, AccountErrorCause,
    AccountEvent, AccountNotFoundError, AccountOperation, AccountReport, AccountResponse,
    AccountServer, AccountState, InsertAccountGroupIdParams, InsertAccountIdParams,
    PermissionResponse,
};
use hash_graph_api::authorization::{
    AccountGroupMemberSubject, AccountGroupPermission, AccountGroupRelationAndSubject, Consistency,
    ModifyRelationshipOperation, WebOwnerSubject,
};
use hash_graph_api::ids::{AccountGroupId, AccountId, OwnedById};
use hash_graph_api::rpc::{
    DelegationError, ErrorCode, Forbidden, ForbiddenReason, Invocation, Metadata, ProcedureId,
    RequestInfo, ServiceId, Version,
};
use hash_graph_api::session::{Account, Session};

const ACTOR: AccountId = AccountId(0x1111);
const MEMBER: AccountId = AccountId(0x2222);
const GROUP: AccountGroupId = AccountGroupId(0x3333);

fn info(procedure: u16) -> RequestInfo {
    RequestInfo { service: ServiceId::new(1), procedure: ProcedureId::new(procedure) }
}

fn session(actor: Option<AccountId>, procedure: u16) -> Session {
    Session::new(Account { actor_id: actor }, info(procedure))
}

fn run(call: AccountCall, session: &Session, events: &[AccountEvent]) -> Vec<AccountAction> {
    let (mut operation, first) = AccountServer.start(call, session);
    let mut actions = vec![first];
    for event in events {
        let (next, action) = operation.step(*event).expect("event answers the pending call");
        operation = next;
        actions.push(action);
    }
    assert!(operation.is_finished());
    actions
}

fn failed(cause: AccountErrorCause) -> AccountAction {
    AccountAction::Respond { result: Err(AccountReport::new(cause)) }
}

fn forbidden(procedure: u16, reason: ForbiddenReason) -> AccountAction {
    failed(AccountErrorCause::Forbidden(Forbidden::new(info(procedure), reason)))
}

#[test]
fn procedure_ids_round_trip() {
    let all = AccountService::procedures();
    assert_eq!(all.len(), 5);
    for (index, procedure) in all.iter().enumerate() {
        let id = procedure.into_id();
        assert_eq!(id.value(), index as u16);
        assert_eq!(AccountProcedureId::from_id(id), Some(*procedure));
    }
    assert_eq!(AccountProcedureId::from_id(ProcedureId::new(5)), None);
    assert_eq!(AccountProcedureId::from_id(ProcedureId::new(u16::MAX)), None);
    assert_eq!(
        AccountProcedureId::from_id(ProcedureId::new(3)),
        Some(AccountProcedureId::AddAccountGroupMember)
    );
}

#[test]
fn service_and_procedure_metadata() {
    let initial = Metadata { since: Version { major: 0, minor: 0 }, deprecation: None };
    assert_eq!(AccountService::id(), ServiceId::new(1));
    assert_eq!(AccountService::version(), Version { major: 0, minor: 0 });
    assert_eq!(AccountService::metadata(), initial);
    assert_eq!(ProcedureCreateAccount::metadata(), initial);
    assert_eq!(ProcedureCreateAccountGroup::metadata(), initial);
    assert_eq!(ProcedureCheckAccountGroupPermission::metadata(), initial);
    assert_eq!(ProcedureAddAccountGroupMember::metadata(), initial);
    assert_eq!(ProcedureRemoveAccountGroupMember::metadata(), initial);
    assert_eq!(ProcedureCreateAccount::id(), AccountProcedureId::CreateAccount);
    assert_eq!(ProcedureRemoveAccountGroupMember::id(), AccountProcedureId::RemoveAccountGroupMember);
}

#[test]
fn unauthenticated_requests_are_refused() {
    let calls = [
        AccountCall::CreateAccount { params: InsertAccountIdParams { account_id: MEMBER } },
        AccountCall::CreateAccountGroup {
            params: InsertAccountGroupIdParams { account_group_id: GROUP },
        },
        AccountCall::CheckAccountGroupPermission {
            account_group_id: GROUP,
            permission: AccountGroupPermission::AddMember,
        },
        AccountCall::AddAccountGroupMember { account_group_id: GROUP, account_id: MEMBER },
        AccountCall::RemoveAccountGroupMember { account_group_id: GROUP, account_id: MEMBER },
    ];
    for call in calls {
        let procedure = call.procedure().into_id().value();
        let session = session(None, procedure);
        assert_eq!(
            run(call, &session, &[]),
            vec![forbidden(procedure, ForbiddenReason::AuthenticationRequired)]
        );
        let report = AccountServer::actor(&session).unwrap_err();
        assert_eq!(report.error_code(), Some(ErrorCode::Forbidden));
    }
    assert_eq!(AccountServer::actor(&session(Some(ACTOR), 0)), Ok(ACTOR));
}

#[test]
fn create_account_records_and_answers_the_id() {
    let params = InsertAccountIdParams { account_id: MEMBER };
    let actions = run(
        AccountCall::CreateAccount { params },
        &session(Some(ACTOR), 0),
        &[
            AccountEvent::AuthorizationApiAcquired { ok: true },
            AccountEvent::StoreAcquired { ok: true },
            AccountEvent::AccountIdInserted { ok: true },
        ],
    );
    assert_eq!(
        actions,
        vec![
            AccountAction::AcquireAuthorizationApi,
            AccountAction::AcquireStore,
            AccountAction::InsertAccountId { actor_id: ACTOR, params },
            AccountAction::Respond { result: Ok(AccountResponse::AccountId(MEMBER)) },
        ]
    );
}

#[test]
fn create_account_reports_each_outside_failure() {
    let call = AccountCall::CreateAccount { params: InsertAccountIdParams { account_id: MEMBER } };
    let session = session(Some(ACTOR), 0);
    assert_eq!(
        run(call, &session, &[AccountEvent::AuthorizationApiAcquired { ok: false }])[1],
        failed(AccountErrorCause::AuthorizationApiUnavailable)
    );
    assert_eq!(
        run(
            call,
            &session,
            &[
                AccountEvent::AuthorizationApiAcquired { ok: true },
                AccountEvent::StoreAcquired { ok: false }
            ]
        )[2],
        failed(AccountErrorCause::StoreUnavailable)
    );
    assert_eq!(
        run(
            call,
            &session,
            &[
                AccountEvent::AuthorizationApiAcquired { ok: true },
                AccountEvent::StoreAcquired { ok: true },
                AccountEvent::AccountIdInserted { ok: false },
            ]
        )[3],
        failed(AccountErrorCause::InsertAccountIdFailed)
    );
}

#[test]
fn create_account_group_for_owning_account() {
    let params = InsertAccountGroupIdParams { account_group_id: GROUP };
    let actions = run(
        AccountCall::CreateAccountGroup { params },
        &session(Some(ACTOR), 1),
        &[
            AccountEvent::AuthorizationApiAcquired { ok: true },
            AccountEvent::StoreAcquired { ok: true },
            AccountEvent::OwnerIdentified { owner: Some(WebOwnerSubject::Account { id: ACTOR }) },
            AccountEvent::AccountGroupIdInserted { ok: true },
        ],
    );
    assert_eq!(
        actions,
        vec![
            AccountAction::AcquireAuthorizationApi,
            AccountAction::AcquireStore,
            AccountAction::IdentifyOwnedById { owned_by_id: OwnedById(ACTOR.0) },
            AccountAction::InsertAccountGroupId { actor_id: ACTOR, params },
            AccountAction::Respond { result: Ok(AccountResponse::AccountGroupId(GROUP)) },
        ]
    );
}

#[test]
fn create_account_group_without_owning_account_is_not_found() {
    let call = AccountCall::CreateAccountGroup {
        params: InsertAccountGroupIdParams { account_group_id: GROUP },
    };
    let session = session(Some(ACTOR), 1);
    let prefix = [
        AccountEvent::AuthorizationApiAcquired { ok: true },
        AccountEvent::StoreAcquired { ok: true },
    ];
    for owner in [
        WebOwnerSubject::Account { id: MEMBER },
        WebOwnerSubject::AccountGroup { id: AccountGroupId(ACTOR.0) },
    ] {
        let mut events = prefix.to_vec();
        events.push(AccountEvent::OwnerIdentified { owner: Some(owner) });
        let actions = run(call, &session, &events);
        assert_eq!(actions.len(), 4);
        let expected = AccountReport::new(AccountErrorCause::AccountNotFound(
            AccountNotFoundError { id: ACTOR },
        ));
        assert_eq!(actions[3], AccountAction::Respond { result: Err(expected) });
        assert_eq!(expected.error_code(), Some(ErrorCode::ResourceNotFound));
    }
    let mut events = prefix.to_vec();
    events.push(AccountEvent::OwnerIdentified { owner: None });
    assert_eq!(run(call, &session, &events)[3], failed(AccountErrorCause::IdentifyOwnerFailed));
    let mut events = prefix.to_vec();
    events.push(AccountEvent::OwnerIdentified { owner: Some(WebOwnerSubject::Account { id: ACTOR }) });
    events.push(AccountEvent::AccountGroupIdInserted { ok: false });
    assert_eq!(
        run(call, &session, &events)[4],
        failed(AccountErrorCause::InsertAccountGroupIdFailed)
    );
}

#[test]
fn check_permission_answers_the_verdict() {
    for has_permission in [true, false] {
        let actions = run(
            AccountCall::CheckAccountGroupPermission {
                account_group_id: GROUP,
                permission: AccountGroupPermission::RemoveMember,
            },
            &session(Some(ACTOR), 2),
            &[
                AccountEvent::AuthorizationApiAcquired { ok: true },
                AccountEvent::PermissionChecked { has_permission: Some(has_permission) },
            ],
        );
        assert_eq!(
            actions,
            vec![
                AccountAction::AcquireAuthorizationApi,
                AccountAction::CheckAccountGroupPermission {
                    actor_id: ACTOR,
                    permission: AccountGroupPermission::RemoveMember,
                    account_group_id: GROUP,
                    consistency: Consistency::FullyConsistent,
                },
                AccountAction::Respond {
                    result: Ok(AccountResponse::Permission(PermissionResponse { has_permission })),
                },
            ]
        );
    }
    let actions = run(
        AccountCall::CheckAccountGroupPermission {
            account_group_id: GROUP,
            permission: AccountGroupPermission::AddMember,
        },
        &session(Some(ACTOR), 2),
        &[
            AccountEvent::AuthorizationApiAcquired { ok: true },
            AccountEvent::PermissionChecked { has_permission: None },
        ],
    );
    assert_eq!(actions[2], failed(AccountErrorCause::PermissionCheckFailed));
}

#[test]
fn add_member_with_and_without_permission() {
    let call = AccountCall::AddAccountGroupMember { account_group_id: GROUP, account_id: MEMBER };
    let session = session(Some(ACTOR), 3);
    let check = AccountAction::CheckAccountGroupPermission {
        actor_id: ACTOR,
        permission: AccountGroupPermission::AddMember,
        account_group_id: GROUP,
        consistency: Consistency::FullyConsistent,
    };
    let granted = run(
        call,
        &session,
        &[
            AccountEvent::AuthorizationApiAcquired { ok: true },
            AccountEvent::PermissionChecked { has_permission: Some(true) },
            AccountEvent::RelationsModified { ok: true },
        ],
    );
    assert_eq!(
        granted,
        vec![
            AccountAction::AcquireAuthorizationApi,
            check,
            AccountAction::ModifyAccountGroupRelations {
                operation: ModifyRelationshipOperation::Create,
                account_group_id: GROUP,
                relation: AccountGroupRelationAndSubject::Member {
                    subject: AccountGroupMemberSubject::Account { id: MEMBER },
                    level: 0,
                },
            },
            AccountAction::Respond { result: Ok(AccountResponse::Empty) },
        ]
    );
    let denied = run(
        call,
        &session,
        &[
            AccountEvent::AuthorizationApiAcquired { ok: true },
            AccountEvent::PermissionChecked { has_permission: Some(false) },
        ],
    );
    assert_eq!(
        denied,
        vec![
            AccountAction::AcquireAuthorizationApi,
            check,
            forbidden(3, ForbiddenReason::AddAccountGroupMemberNotPermitted),
        ]
    );
    let not_modified = run(
        call,
        &session,
        &[
            AccountEvent::AuthorizationApiAcquired { ok: true },
            AccountEvent::PermissionChecked { has_permission: Some(true) },
            AccountEvent::RelationsModified { ok: false },
        ],
    );
    assert_eq!(not_modified[3], failed(AccountErrorCause::ModifyRelationsFailed));
}

#[test]
fn remove_member_with_and_without_permission() {
    let call = AccountCall::RemoveAccountGroupMember { account_group_id: GROUP, account_id: MEMBER };
    let session = session(Some(ACTOR), 4);
    let granted = run(
        call,
        &session,
        &[
            AccountEvent::AuthorizationApiAcquired { ok: true },
            AccountEvent::PermissionChecked { has_permission: Some(true) },
            AccountEvent::RelationsModified { ok: true },
        ],
    );
    assert_eq!(
        granted[1],
        AccountAction::CheckAccountGroupPermission {
            actor_id: ACTOR,
            permission: AccountGroupPermission::RemoveMember,
            account_group_id: GROUP,
            consistency: Consistency::FullyConsistent,
        }
    );
    assert_eq!(
        granted[2],
        AccountAction::ModifyAccountGroupRelations {
            operation: ModifyRelationshipOperation::Delete,
            account_group_id: GROUP,
            relation: AccountGroupRelationAndSubject::Member {
                subject: AccountGroupMemberSubject::Account { id: MEMBER },
                level: 0,
            },
        }
    );
    assert_eq!(granted[3], AccountAction::Respond { result: Ok(AccountResponse::Empty) });
    let denied = run(
        call,
        &session,
        &[
            AccountEvent::AuthorizationApiAcquired { ok: true },
            AccountEvent::PermissionChecked { has_permission: Some(false) },
        ],
    );
    assert_eq!(denied[2], forbidden(4, ForbiddenReason::RemoveAccountGroupMemberNotPermitted));
}

#[test]
fn events_that_do_not_answer_the_pending_call_are_rejected() {
    let (operation, _) = AccountServer.start(
        AccountCall::CreateAccount { params: InsertAccountIdParams { account_id: MEMBER } },
        &session(Some(ACTOR), 0),
    );
    assert_eq!(operation.step(AccountEvent::StoreAcquired { ok: true }), None);
    let finished = AccountOperation { request_info: info(0), state: AccountState::Finished };
    assert_eq!(finished.step(AccountEvent::RelationsModified { ok: true }), None);
    let (operation, _) = AccountServer.start(
        AccountCall::CheckAccountGroupPermission {
            account_group_id: GROUP,
            permission: AccountGroupPermission::AddMember,
        },
        &session(Some(ACTOR), 2),
    );
    let (operation, _) = operation.step(AccountEvent::AuthorizationApiAcquired { ok: true }).unwrap();
    assert_eq!(operation.step(AccountEvent::StoreAcquired { ok: true }), None);
}

#[test]
fn client_and_delegate_agree_on_procedures() {
    let delegate = AccountDelegate::new(7u8);
    assert_eq!(*delegate.inner(), 7u8);
    let calls = [
        AccountCall::CreateAccount { params: InsertAccountIdParams { account_id: MEMBER } },
        AccountCall::CreateAccountGroup {
            params: InsertAccountGroupIdParams { account_group_id: GROUP },
        },
        AccountCall::CheckAccountGroupPermission {
            account_group_id: GROUP,
            permission: AccountGroupPermission::AddMember,
        },
        AccountCall::AddAccountGroupMember { account_group_id: GROUP, account_id: MEMBER },
        AccountCall::RemoveAccountGroupMember { account_group_id: GROUP, account_id: MEMBER },
    ];
    for (index, call) in calls.iter().enumerate() {
        let invocation = AccountClient.invocation(call);
        assert_eq!(
            invocation,
            Invocation {
                service: ServiceId::new(1),
                version: Version { major: 0, minor: 0 },
                procedure: ProcedureId::new(index as u16),
            }
        );
        assert_eq!(delegate.route(invocation.procedure), Ok(call.procedure()));
    }
    assert_eq!(
        delegate.route(ProcedureId::new(9)),
        Err(DelegationError::UnknownProcedure { procedure: ProcedureId::new(9) })
    );
}

#[test]
fn error_messages() {
    assert_eq!(AccountError.message(), "unable to fullfil account request");
    let report = AccountReport::new(AccountErrorCause::StoreUnavailable);
    assert_eq!(report.current_context(), AccountError);
    assert_eq!(report.error_code(), None);
    assert_eq!(ForbiddenReason::AuthenticationRequired.as_str(), "user authentication required");
    assert_eq!(
        ForbiddenReason::AddAccountGroupMemberNotPermitted.as_str(),
        "actor does not have permission to add account group member"
    );
    assert_eq!(
        ForbiddenReason::RemoveAccountGroupMemberNotPermitted.as_str(),
        "actor does not have permission to remove account group member"
    );
    assert_eq!(AccountNotFoundError { id: ACTOR }.error_code(), ErrorCode::ResourceNotFound);
}
