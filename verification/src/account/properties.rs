//! Properties of the account service that span several steps or functions.

use vstd::prelude::*;
use crate::authorization::{
    direct_membership, AccountGroupPermission, Consistency, ModifyRelationshipOperation,
    WebOwnerSubject,
};
use crate::ids::{AccountGroupId, AccountId, OwnedById};
use crate::rpc::{DelegationError, ForbiddenReason, ProcedureId};
use crate::session::Session;
use super::meta::{AccountProcedureId, AccountService};
use super::{
    failure, refusal, spec_route_account_procedure, AccountAction, AccountCall, AccountClient,
    AccountErrorCause, AccountEvent, AccountNotFoundError, AccountOperation,
    AccountResponse, AccountServer, AccountState, AccountTask, InsertAccountGroupIdParams,
    InsertAccountIdParams, MembershipChange, PermissionRequest, PermissionResponse,
};

verus! {

/// Feeds `events` to `operation` in order: the operation reached and the actions asked
/// for on the way, or `None` where an event does not answer the pending call.
pub open spec fn replay(operation: AccountOperation, events: Seq<AccountEvent>) -> Option<
    (AccountOperation, Seq<AccountAction>),
>
    decreases events.len(),
{
    if events.len() == 0 {
        Some((operation, Seq::empty()))
    } else {
        match operation.spec_step(events[0]) {
            None => None,
            Some((next, action)) => match replay(next, events.drop_first()) {
                None => None,
                Some((last, actions)) => Some((last, seq![action] + actions)),
            },
        }
    }
}

/// The operation and action after `event`, where the event is accepted.
pub open spec fn stepped(operation: AccountOperation, event: AccountEvent) -> (
    AccountOperation,
    AccountAction,
) {
    operation.spec_step(event)->0
}

/// The actions asked for while replaying `events`, where all of them are accepted.
pub open spec fn replayed_actions(operation: AccountOperation, events: Seq<AccountEvent>) -> Seq<
    AccountAction,
> {
    match replay(operation, events) {
        Some((_, actions)) => actions,
        None => Seq::empty(),
    }
}

/// The operation reached by replaying `events`, where all of them are accepted.
pub open spec fn replayed_operation(
    operation: AccountOperation,
    events: Seq<AccountEvent>,
) -> AccountOperation {
    match replay(operation, events) {
        Some((last, _)) => last,
        None => operation,
    }
}

/// At most how many outside calls, the pending one included, an operation still makes
/// before it answers.
pub open spec fn remaining_calls(state: AccountState) -> nat {
    match state {
        AccountState::Finished => 0,
        AccountState::InsertingAccountId { .. } => 1,
        AccountState::InsertingAccountGroupId { .. } => 1,
        AccountState::ModifyingRelations => 1,
        AccountState::IdentifyingOwner { .. } => 2,
        AccountState::CheckingPermission { .. } => 2,
        AccountState::AcquiringStore { .. } => 3,
        AccountState::AcquiringAuthorizationApi { .. } => 4,
    }
}

/// Whether `event` reports that the pending outside call failed.
pub open spec fn reports_failure(event: AccountEvent) -> bool {
    match event {
        AccountEvent::AuthorizationApiAcquired { ok } => !ok,
        AccountEvent::StoreAcquired { ok } => !ok,
        AccountEvent::AccountIdInserted { ok } => !ok,
        AccountEvent::OwnerIdentified { owner } => owner is None,
        AccountEvent::AccountGroupIdInserted { ok } => !ok,
        AccountEvent::PermissionChecked { has_permission } => has_permission is None,
        AccountEvent::RelationsModified { ok } => !ok,
    }
}

/// The cause an operation fails with when the call that `event` answers failed.
pub open spec fn failure_cause(event: AccountEvent) -> AccountErrorCause {
    match event {
        AccountEvent::AuthorizationApiAcquired { .. } =>
            AccountErrorCause::AuthorizationApiUnavailable,
        AccountEvent::StoreAcquired { .. } => AccountErrorCause::StoreUnavailable,
        AccountEvent::AccountIdInserted { .. } => AccountErrorCause::InsertAccountIdFailed,
        AccountEvent::OwnerIdentified { .. } => AccountErrorCause::IdentifyOwnerFailed,
        AccountEvent::AccountGroupIdInserted { .. } =>
            AccountErrorCause::InsertAccountGroupIdFailed,
        AccountEvent::PermissionChecked { .. } => AccountErrorCause::PermissionCheckFailed,
        AccountEvent::RelationsModified { .. } => AccountErrorCause::ModifyRelationsFailed,
    }
}

/// A request on a session where nobody is authenticated is refused at once, with the
/// session's request information and the reason that authentication is required, and
/// no outside call is made.
pub proof fn lemma_unauthenticated_request_is_refused(call: AccountCall, session: Session)
    requires
        session.account.actor_id is None,
    ensures
        AccountServer::spec_start(call, session) == (
            AccountOperation { request_info: session.request_info, state: AccountState::Finished },
            AccountAction::Respond {
                result: refusal(session.request_info, ForbiddenReason::AuthenticationRequired),
            },
        ),
{
}

/// On an authenticated session, every request first acquires the authorization API, on
/// behalf of the session's actor.
pub proof fn lemma_authenticated_request_acquires_first(
    call: AccountCall,
    session: Session,
    actor_id: AccountId,
)
    requires
        session.account.actor_id == Some(actor_id),
    ensures
        AccountServer::spec_start(call, session) == (
            AccountOperation {
                request_info: session.request_info,
                state: AccountState::AcquiringAuthorizationApi { task: call.spec_task(actor_id) },
            },
            AccountAction::AcquireAuthorizationApi,
        ),
{
}

/// Every step brings the operation closer to its answer, and an operation is finished
/// exactly when the step answers the caller.
pub proof fn lemma_step_makes_progress(operation: AccountOperation, event: AccountEvent)
    requires
        operation.spec_step(event) is Some,
    ensures
        remaining_calls(stepped(operation, event).0.state) < remaining_calls(
            operation.state,
        ),
        (stepped(operation, event).0.state == AccountState::Finished) <==> (stepped(operation, event).1 is Respond),
        stepped(operation, event).0.request_info == operation.request_info,
{
}

/// A started operation answers after at most four outside calls, and it is finished
/// exactly when its first action answers the caller.
pub proof fn lemma_start_bounds_calls(call: AccountCall, session: Session)
    ensures
        remaining_calls(AccountServer::spec_start(call, session).0.state) <= 4,
        (AccountServer::spec_start(call, session).0.state == AccountState::Finished) <==> (
        AccountServer::spec_start(call, session).1 is Respond),
{
}

/// An operation accepts no more outcomes than the outside calls it may still make: every
/// sequence of outcomes it accepts is at most that long, so a started operation answers
/// after at most four outside calls.
pub proof fn lemma_accepted_outcomes_are_bounded(
    operation: AccountOperation,
    events: Seq<AccountEvent>,
)
    requires
        replay(operation, events) is Some,
    ensures
        events.len() <= remaining_calls(operation.state),
    decreases events.len(),
{
    if events.len() > 0 {
        let (next, _) = operation.spec_step(events[0])->0;
        lemma_step_makes_progress(operation, events[0]);
        lemma_accepted_outcomes_are_bounded(next, events.drop_first());
    }
}

/// The actor of a task.
pub open spec fn task_actor(task: AccountTask) -> AccountId {
    match task {
        AccountTask::CreateAccount { actor_id, .. } => actor_id,
        AccountTask::CreateAccountGroup { actor_id, .. } => actor_id,
        AccountTask::Authorize { actor_id, .. } => actor_id,
    }
}

/// Every actor an operation in `state` still acts for is `actor`.
pub open spec fn state_acts_for(state: AccountState, actor: AccountId) -> bool {
    match state {
        AccountState::AcquiringAuthorizationApi { task } => task_actor(task) == actor,
        AccountState::AcquiringStore { task } => task_actor(task) == actor,
        AccountState::IdentifyingOwner { actor_id, .. } => actor_id == actor,
        _ => true,
    }
}

/// Every store write, ownership lookup and permission check that `action` asks for is
/// made for `actor`.
pub open spec fn action_acts_for(action: AccountAction, actor: AccountId) -> bool {
    match action {
        AccountAction::InsertAccountId { actor_id, .. } => actor_id == actor,
        AccountAction::IdentifyOwnedById { owned_by_id } => owned_by_id.0 == actor.0,
        AccountAction::InsertAccountGroupId { actor_id, .. } => actor_id == actor,
        AccountAction::CheckAccountGroupPermission { actor_id, .. } => actor_id == actor,
        _ => true,
    }
}

/// A request acts only for the actor authenticated on its session: the started operation
/// and its first action act for that actor, and so does every later step.
pub proof fn lemma_start_acts_for_session_actor(
    call: AccountCall,
    session: Session,
    actor_id: AccountId,
)
    requires
        session.account.actor_id == Some(actor_id),
    ensures
        state_acts_for(AccountServer::spec_start(call, session).0.state, actor_id),
        action_acts_for(AccountServer::spec_start(call, session).1, actor_id),
{
}

/// A step keeps an operation acting for the same actor, and the action it asks for acts
/// for that actor.
pub proof fn lemma_step_acts_for_same_actor(
    operation: AccountOperation,
    event: AccountEvent,
    actor_id: AccountId,
)
    requires
        operation.spec_step(event) is Some,
        state_acts_for(operation.state, actor_id),
    ensures
        state_acts_for(stepped(operation, event).0.state, actor_id),
        action_acts_for(stepped(operation, event).1, actor_id),
{
}

/// Whatever the outside calls answer, an operation acting for `actor` asks for nothing on
/// behalf of anybody else.
pub proof fn lemma_replay_acts_for_same_actor(
    operation: AccountOperation,
    events: Seq<AccountEvent>,
    actor_id: AccountId,
)
    requires
        replay(operation, events) is Some,
        state_acts_for(operation.state, actor_id),
    ensures
        forall|i: int|
            0 <= i < replayed_actions(operation, events).len() ==> action_acts_for(
                #[trigger] replayed_actions(operation, events)[i],
                actor_id,
            ),
        state_acts_for(replayed_operation(operation, events).state, actor_id),
    decreases events.len(),
{
    if events.len() > 0 {
        let (next, action) = operation.spec_step(events[0])->0;
        lemma_step_acts_for_same_actor(operation, events[0], actor_id);
        lemma_replay_acts_for_same_actor(next, events.drop_first(), actor_id);
        let rest = replayed_actions(next, events.drop_first());
        assert(replayed_actions(operation, events) == seq![action] + rest);
        assert forall|i: int|
            0 <= i < replayed_actions(operation, events).len() implies action_acts_for(
                #[trigger] replayed_actions(operation, events)[i],
                actor_id,
            ) by {
            if i > 0 {
                assert(replayed_actions(operation, events)[i] == rest[i - 1]);
            }
        }
    }
}

/// Serving a request on a session where `actor_id` is authenticated asks for store writes,
/// ownership lookups and permission checks on behalf of `actor_id` only, whatever the
/// outside calls answer.
pub proof fn lemma_request_acts_only_for_session_actor(
    call: AccountCall,
    session: Session,
    actor_id: AccountId,
    events: Seq<AccountEvent>,
)
    requires
        session.account.actor_id == Some(actor_id),
        replay(AccountServer::spec_start(call, session).0, events) is Some,
    ensures
        action_acts_for(AccountServer::spec_start(call, session).1, actor_id),
        forall|i: int|
            0 <= i < replayed_actions(AccountServer::spec_start(call, session).0, events).len()
                ==> action_acts_for(
                #[trigger] replayed_actions(AccountServer::spec_start(call, session).0, events)[i],
                actor_id,
            ),
{
    lemma_start_acts_for_session_actor(call, session, actor_id);
    lemma_replay_acts_for_same_actor(AccountServer::spec_start(call, session).0, events, actor_id);
}

/// A finished operation accepts no further outcome.
pub proof fn lemma_finished_operation_is_inert(operation: AccountOperation, event: AccountEvent)
    requires
        operation.state == AccountState::Finished,
    ensures
        operation.spec_step(event) is None,
{
}

/// When the pending outside call failed, the operation answers the caller with the
/// matching failure and is finished.
pub proof fn lemma_outside_failure_is_reported(operation: AccountOperation, event: AccountEvent)
    requires
        operation.spec_step(event) is Some,
        reports_failure(event),
    ensures
        operation.spec_step(event) == Some(operation.finish(failure(failure_cause(event)))),
{
}

/// The membership of an account group is changed only after the authorization backend
/// confirmed that the actor holds the permission the change needs, and the change is
/// exactly the requested one: the account's direct membership, created for an addition
/// and deleted for a removal.
pub proof fn lemma_membership_changes_only_when_permitted(
    operation: AccountOperation,
    event: AccountEvent,
)
    requires
        operation.spec_step(event) matches Some((_, action)) && action is ModifyAccountGroupRelations,
    ensures
        exists|change: MembershipChange|
            {
                &&& operation.state == AccountState::CheckingPermission {
                    request: PermissionRequest::Change { change },
                }
                &&& event == AccountEvent::PermissionChecked { has_permission: Some(true) }
                &&& stepped(operation, event).1 == AccountAction::ModifyAccountGroupRelations {
                    operation: change.operation(),
                    account_group_id: change.account_group_id,
                    relation: direct_membership(change.account_id),
                }
            },
{
    match operation.state {
        AccountState::CheckingPermission { request: PermissionRequest::Change { change } } => {
            assert(operation.state == AccountState::CheckingPermission {
                request: PermissionRequest::Change { change },
            });
        },
        _ => {},
    }
}

/// An actor without the permission a membership change needs is refused, with the
/// request's information and the reason for the kind of change, and nothing is changed.
pub proof fn lemma_denied_membership_change_is_refused(
    operation: AccountOperation,
    change: MembershipChange,
)
    requires
        operation.state == (AccountState::CheckingPermission {
            request: PermissionRequest::Change { change },
        }),
    ensures
        operation.spec_step(AccountEvent::PermissionChecked { has_permission: Some(false) })
            == Some(operation.finish(refusal(operation.request_info, change.refusal_reason()))),
{
}

/// An account group is recorded only on behalf of an actor whose web the store reports
/// as owned by the actor's own account.
pub proof fn lemma_group_recorded_only_for_owning_account(
    operation: AccountOperation,
    event: AccountEvent,
)
    requires
        operation.spec_step(event) matches Some((_, action)) && action is InsertAccountGroupId,
    ensures
        ({
            let action = stepped(operation, event).1;
            let actor_id = action->InsertAccountGroupId_actor_id;
            &&& operation.state == AccountState::IdentifyingOwner {
                actor_id,
                params: action->InsertAccountGroupId_params,
            }
            &&& event == AccountEvent::OwnerIdentified {
                owner: Some(WebOwnerSubject::Account { id: actor_id }),
            }
        }),
{
    match operation.state {
        AccountState::IdentifyingOwner { actor_id, params } => {
            assert(operation.state == AccountState::IdentifyingOwner { actor_id, params });
        },
        _ => {},
    }
}

/// Where the web of the actor is owned by anything but the actor's account, creating an
/// account group fails because the account is not found, and nothing is recorded.
pub proof fn lemma_foreign_owner_means_account_not_found(
    operation: AccountOperation,
    actor_id: AccountId,
    params: InsertAccountGroupIdParams,
    owner: WebOwnerSubject,
)
    requires
        operation.state == (AccountState::IdentifyingOwner { actor_id, params }),
        owner != (WebOwnerSubject::Account { id: actor_id }),
    ensures
        operation.spec_step(AccountEvent::OwnerIdentified { owner: Some(owner) }) == Some(
            operation.finish(
                failure(AccountErrorCause::AccountNotFound(AccountNotFoundError { id: actor_id })),
            ),
        ),
{
}

/// With the authorization API and the store available and the account recorded, creating
/// an account records it on behalf of the session's actor and answers with the requested
/// account id.
pub proof fn lemma_create_account_answers_requested_id(
    params: InsertAccountIdParams,
    session: Session,
    actor_id: AccountId,
)
    requires
        session.account.actor_id == Some(actor_id),
    ensures
        ({
            let (operation, first) = AccountServer::spec_start(
                AccountCall::CreateAccount { params },
                session,
            );
            &&& first == AccountAction::AcquireAuthorizationApi
            &&& replay(
                operation,
                seq![
                    AccountEvent::AuthorizationApiAcquired { ok: true },
                    AccountEvent::StoreAcquired { ok: true },
                    AccountEvent::AccountIdInserted { ok: true },
                ],
            ) == Some(
                (
                    operation.with_state(AccountState::Finished),
                    seq![
                        AccountAction::AcquireStore,
                        AccountAction::InsertAccountId { actor_id, params },
                        AccountAction::Respond {
                            result: Ok(AccountResponse::AccountId(params.account_id)),
                        },
                    ],
                ),
            )
        }),
{
    let events = seq![
        AccountEvent::AuthorizationApiAcquired { ok: true },
        AccountEvent::StoreAcquired { ok: true },
        AccountEvent::AccountIdInserted { ok: true },
    ];
    reveal_with_fuel(replay, 4);
    assert(events.drop_first() =~= seq![events[1], events[2]]);
    assert(events.drop_first().drop_first() =~= seq![events[2]]);
    assert(events.drop_first().drop_first().drop_first() =~= Seq::<AccountEvent>::empty());
}

/// With the authorization API and the store available, the actor's web owned by the
/// actor's account, and the group recorded, creating an account group asks who owns the
/// actor's web, records the group on behalf of the actor, and answers with the requested
/// group id.
pub proof fn lemma_create_account_group_answers_requested_id(
    params: InsertAccountGroupIdParams,
    session: Session,
    actor_id: AccountId,
)
    requires
        session.account.actor_id == Some(actor_id),
    ensures
        ({
            let (operation, first) = AccountServer::spec_start(
                AccountCall::CreateAccountGroup { params },
                session,
            );
            &&& first == AccountAction::AcquireAuthorizationApi
            &&& replay(
                operation,
                seq![
                    AccountEvent::AuthorizationApiAcquired { ok: true },
                    AccountEvent::StoreAcquired { ok: true },
                    AccountEvent::OwnerIdentified {
                        owner: Some(WebOwnerSubject::Account { id: actor_id }),
                    },
                    AccountEvent::AccountGroupIdInserted { ok: true },
                ],
            ) == Some(
                (
                    operation.with_state(AccountState::Finished),
                    seq![
                        AccountAction::AcquireStore,
                        AccountAction::IdentifyOwnedById { owned_by_id: OwnedById(actor_id.0) },
                        AccountAction::InsertAccountGroupId { actor_id, params },
                        AccountAction::Respond {
                            result: Ok(AccountResponse::AccountGroupId(params.account_group_id)),
                        },
                    ],
                ),
            )
        }),
{
    let events = seq![
        AccountEvent::AuthorizationApiAcquired { ok: true },
        AccountEvent::StoreAcquired { ok: true },
        AccountEvent::OwnerIdentified { owner: Some(WebOwnerSubject::Account { id: actor_id }) },
        AccountEvent::AccountGroupIdInserted { ok: true },
    ];
    reveal_with_fuel(replay, 5);
    assert(events.drop_first() =~= seq![events[1], events[2], events[3]]);
    assert(events.drop_first().drop_first() =~= seq![events[2], events[3]]);
    assert(events.drop_first().drop_first().drop_first() =~= seq![events[3]]);
    assert(events.drop_first().drop_first().drop_first().drop_first() =~= Seq::<
        AccountEvent,
    >::empty());
}

/// With the authorization API available and the check answered, checking a permission
/// asks the backend, fully consistently, about exactly that actor, permission and group,
/// and answers with the backend's verdict.
pub proof fn lemma_check_permission_answers_verdict(
    account_group_id: AccountGroupId,
    permission: AccountGroupPermission,
    session: Session,
    actor_id: AccountId,
    has_permission: bool,
)
    requires
        session.account.actor_id == Some(actor_id),
    ensures
        ({
            let (operation, first) = AccountServer::spec_start(
                AccountCall::CheckAccountGroupPermission { account_group_id, permission },
                session,
            );
            &&& first == AccountAction::AcquireAuthorizationApi
            &&& replay(
                operation,
                seq![
                    AccountEvent::AuthorizationApiAcquired { ok: true },
                    AccountEvent::PermissionChecked { has_permission: Some(has_permission) },
                ],
            ) == Some(
                (
                    operation.with_state(AccountState::Finished),
                    seq![
                        AccountAction::CheckAccountGroupPermission {
                            actor_id,
                            permission,
                            account_group_id,
                            consistency: Consistency::FullyConsistent,
                        },
                        AccountAction::Respond {
                            result: Ok(
                                AccountResponse::Permission(PermissionResponse { has_permission }),
                            ),
                        },
                    ],
                ),
            )
        }),
{
    let events = seq![
        AccountEvent::AuthorizationApiAcquired { ok: true },
        AccountEvent::PermissionChecked { has_permission: Some(has_permission) },
    ];
    reveal_with_fuel(replay, 3);
    assert(events.drop_first() =~= seq![events[1]]);
    assert(events.drop_first().drop_first() =~= Seq::<AccountEvent>::empty());
}

/// Adding a member: with the permission to add members granted, the account becomes a
/// direct member of the group and the request answers with nothing; without it, the
/// request is refused and nothing is changed.
pub proof fn lemma_add_member_follows_permission(
    account_group_id: AccountGroupId,
    account_id: AccountId,
    session: Session,
    actor_id: AccountId,
)
    requires
        session.account.actor_id == Some(actor_id),
    ensures
        ({
            let (operation, first) = AccountServer::spec_start(
                AccountCall::AddAccountGroupMember { account_group_id, account_id },
                session,
            );
            let check = AccountAction::CheckAccountGroupPermission {
                actor_id,
                permission: AccountGroupPermission::AddMember,
                account_group_id,
                consistency: Consistency::FullyConsistent,
            };
            &&& first == AccountAction::AcquireAuthorizationApi
            &&& replay(
                operation,
                seq![
                    AccountEvent::AuthorizationApiAcquired { ok: true },
                    AccountEvent::PermissionChecked { has_permission: Some(true) },
                    AccountEvent::RelationsModified { ok: true },
                ],
            ) == Some(
                (
                    operation.with_state(AccountState::Finished),
                    seq![
                        check,
                        AccountAction::ModifyAccountGroupRelations {
                            operation: ModifyRelationshipOperation::Create,
                            account_group_id,
                            relation: direct_membership(account_id),
                        },
                        AccountAction::Respond { result: Ok(AccountResponse::Empty) },
                    ],
                ),
            )
            &&& replay(
                operation,
                seq![
                    AccountEvent::AuthorizationApiAcquired { ok: true },
                    AccountEvent::PermissionChecked { has_permission: Some(false) },
                ],
            ) == Some(
                (
                    operation.with_state(AccountState::Finished),
                    seq![
                        check,
                        AccountAction::Respond {
                            result: refusal(
                                session.request_info,
                                ForbiddenReason::AddAccountGroupMemberNotPermitted,
                            ),
                        },
                    ],
                ),
            )
        }),
{
    let granted = seq![
        AccountEvent::AuthorizationApiAcquired { ok: true },
        AccountEvent::PermissionChecked { has_permission: Some(true) },
        AccountEvent::RelationsModified { ok: true },
    ];
    let denied = seq![
        AccountEvent::AuthorizationApiAcquired { ok: true },
        AccountEvent::PermissionChecked { has_permission: Some(false) },
    ];
    reveal_with_fuel(replay, 4);
    assert(granted.drop_first() =~= seq![granted[1], granted[2]]);
    assert(granted.drop_first().drop_first() =~= seq![granted[2]]);
    assert(granted.drop_first().drop_first().drop_first() =~= Seq::<AccountEvent>::empty());
    assert(denied.drop_first() =~= seq![denied[1]]);
    assert(denied.drop_first().drop_first() =~= Seq::<AccountEvent>::empty());
}

/// Removing a member: with the permission to remove members granted, the account's direct
/// membership of the group is deleted and the request answers with nothing; without it,
/// the request is refused and nothing is changed.
pub proof fn lemma_remove_member_follows_permission(
    account_group_id: AccountGroupId,
    account_id: AccountId,
    session: Session,
    actor_id: AccountId,
)
    requires
        session.account.actor_id == Some(actor_id),
    ensures
        ({
            let (operation, first) = AccountServer::spec_start(
                AccountCall::RemoveAccountGroupMember { account_group_id, account_id },
                session,
            );
            let check = AccountAction::CheckAccountGroupPermission {
                actor_id,
                permission: AccountGroupPermission::RemoveMember,
                account_group_id,
                consistency: Consistency::FullyConsistent,
            };
            &&& first == AccountAction::AcquireAuthorizationApi
            &&& replay(
                operation,
                seq![
                    AccountEvent::AuthorizationApiAcquired { ok: true },
                    AccountEvent::PermissionChecked { has_permission: Some(true) },
                    AccountEvent::RelationsModified { ok: true },
                ],
            ) == Some(
                (
                    operation.with_state(AccountState::Finished),
                    seq![
                        check,
                        AccountAction::ModifyAccountGroupRelations {
                            operation: ModifyRelationshipOperation::Delete,
                            account_group_id,
                            relation: direct_membership(account_id),
                        },
                        AccountAction::Respond { result: Ok(AccountResponse::Empty) },
                    ],
                ),
            )
            &&& replay(
                operation,
                seq![
                    AccountEvent::AuthorizationApiAcquired { ok: true },
                    AccountEvent::PermissionChecked { has_permission: Some(false) },
                ],
            ) == Some(
                (
                    operation.with_state(AccountState::Finished),
                    seq![
                        check,
                        AccountAction::Respond {
                            result: refusal(
                                session.request_info,
                                ForbiddenReason::RemoveAccountGroupMemberNotPermitted,
                            ),
                        },
                    ],
                ),
            )
        }),
{
    let granted = seq![
        AccountEvent::AuthorizationApiAcquired { ok: true },
        AccountEvent::PermissionChecked { has_permission: Some(true) },
        AccountEvent::RelationsModified { ok: true },
    ];
    let denied = seq![
        AccountEvent::AuthorizationApiAcquired { ok: true },
        AccountEvent::PermissionChecked { has_permission: Some(false) },
    ];
    reveal_with_fuel(replay, 4);
    assert(granted.drop_first() =~= seq![granted[1], granted[2]]);
    assert(granted.drop_first().drop_first() =~= seq![granted[2]]);
    assert(granted.drop_first().drop_first().drop_first() =~= Seq::<AccountEvent>::empty());
    assert(denied.drop_first() =~= seq![denied[1]]);
    assert(denied.drop_first().drop_first() =~= Seq::<AccountEvent>::empty());
}

/// What a client sends for a call reaches, at the server's delegate, the procedure that
/// serves that call, on the account service.
pub proof fn lemma_client_and_delegate_agree(call: AccountCall)
    ensures
        spec_route_account_procedure(AccountClient::spec_invocation(call).procedure) == Ok::<
            _,
            crate::rpc::DelegationError,
        >(call.spec_procedure()),
        AccountClient::spec_invocation(call).service == AccountService::spec_id(),
{
}

/// Each kind of call travels under its fixed wire identifier and is served by its own
/// procedure: whatever its parameters, creating an account is sent as procedure 0 and
/// served by `CreateAccount`, creating a group as 1 by `CreateAccountGroup`, checking a
/// permission as 2 by `CheckAccountGroupPermission`, adding a member as 3 by
/// `AddAccountGroupMember`, and removing a member as 4 by `RemoveAccountGroupMember`.
pub proof fn lemma_calls_travel_under_fixed_identifiers(
    account_id: AccountId,
    account_group_id: AccountGroupId,
    permission: AccountGroupPermission,
)
    ensures
        ({
            let create_account = AccountCall::CreateAccount {
                params: InsertAccountIdParams { account_id },
            };
            &&& create_account.spec_procedure() == AccountProcedureId::CreateAccount
            &&& AccountClient::spec_invocation(create_account).procedure == (ProcedureId {
                value: 0,
            })
            &&& spec_route_account_procedure(ProcedureId { value: 0 }) == Ok::<
                _,
                DelegationError,
            >(AccountProcedureId::CreateAccount)
        }),
        ({
            let create_group = AccountCall::CreateAccountGroup {
                params: InsertAccountGroupIdParams { account_group_id },
            };
            &&& create_group.spec_procedure() == AccountProcedureId::CreateAccountGroup
            &&& AccountClient::spec_invocation(create_group).procedure == (ProcedureId {
                value: 1,
            })
            &&& spec_route_account_procedure(ProcedureId { value: 1 }) == Ok::<
                _,
                DelegationError,
            >(AccountProcedureId::CreateAccountGroup)
        }),
        ({
            let check = AccountCall::CheckAccountGroupPermission { account_group_id, permission };
            &&& check.spec_procedure() == AccountProcedureId::CheckAccountGroupPermission
            &&& AccountClient::spec_invocation(check).procedure == (ProcedureId { value: 2 })
            &&& spec_route_account_procedure(ProcedureId { value: 2 }) == Ok::<
                _,
                DelegationError,
            >(AccountProcedureId::CheckAccountGroupPermission)
        }),
        ({
            let add = AccountCall::AddAccountGroupMember { account_group_id, account_id };
            &&& add.spec_procedure() == AccountProcedureId::AddAccountGroupMember
            &&& AccountClient::spec_invocation(add).procedure == (ProcedureId { value: 3 })
            &&& spec_route_account_procedure(ProcedureId { value: 3 }) == Ok::<
                _,
                DelegationError,
            >(AccountProcedureId::AddAccountGroupMember)
        }),
        ({
            let remove = AccountCall::RemoveAccountGroupMember { account_group_id, account_id };
            &&& remove.spec_procedure() == AccountProcedureId::RemoveAccountGroupMember
            &&& AccountClient::spec_invocation(remove).procedure == (ProcedureId { value: 4 })
            &&& spec_route_account_procedure(ProcedureId { value: 4 }) == Ok::<
                _,
                DelegationError,
            >(AccountProcedureId::RemoveAccountGroupMember)
        }),
{
}

/// The delegate refuses exactly the identifiers 5 and above.
pub proof fn lemma_delegate_refuses_unknown_procedures(id: ProcedureId)
    ensures
        spec_route_account_procedure(id) is Err <==> id.value >= 5,
{
}

} // verus!
