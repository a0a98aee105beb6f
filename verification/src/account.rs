//! The account service: creating accounts and account groups, and checking and
//! changing account group membership.
//!
//! A request is served by an [`AccountOperation`]: [`AccountServer::start`] turns the
//! call and the session into the first step, and [`AccountOperation::step`] takes the
//! outcome of each outside call (acquiring the authorization API or the store, writing
//! to the store, asking the authorization backend) to the next step, until the operation
//! answers the caller with [`AccountAction::Respond`].

pub mod meta;
pub mod properties;

use vstd::prelude::*;
use crate::authorization::{
    direct_membership, AccountGroupMemberSubject, AccountGroupPermission,
    AccountGroupRelationAndSubject, Consistency, ModifyRelationshipOperation, WebOwnerSubject,
};
use crate::ids::{AccountGroupId, AccountId, OwnedById};
use crate::rpc::{
    initial_version, DelegationError, ErrorCode, Forbidden, ForbiddenReason, Invocation,
    ProcedureId, RequestInfo,
};
use crate::session::Session;
use self::meta::{AccountProcedureId, AccountService};

verus! {

/// Whether an actor holds a permission.
#[derive(Debug, Clone, Copy, PartialEq, Eq, Hash, Structural)]
pub struct PermissionResponse {
    pub has_permission: bool,
}

/// The acting account does not exist in the graph.
#[derive(Debug, Clone, Copy, PartialEq, Eq, Hash, Structural)]
pub struct AccountNotFoundError {
    pub id: AccountId,
}

impl AccountNotFoundError {
    /// A missing account is reported with the code `ResourceNotFound`.
    pub fn error_code(&self) -> (code: ErrorCode)
        ensures
            code == ErrorCode::ResourceNotFound,
    {
        ErrorCode::ResourceNotFound
    }
}

/// The context of every failed account request.
#[derive(Debug, Clone, Copy, PartialEq, Eq, Hash, Structural)]
pub struct AccountError;

impl AccountError {
    pub fn message(&self) -> (text: &'static str)
        ensures
            text@ == "unable to fullfil account request"@,
    {
        "unable to fullfil account request"
    }
}

/// What made an account request fail.
#[derive(Debug, Clone, Copy, PartialEq, Eq, Hash, Structural)]
pub enum AccountErrorCause {
    /// The caller may not make the request.
    Forbidden(Forbidden),
    /// The acting account is not an account of the graph.
    AccountNotFound(AccountNotFoundError),
    /// The authorization API could not be acquired.
    AuthorizationApiUnavailable,
    /// The store could not be acquired.
    StoreUnavailable,
    /// The store did not record the account id.
    InsertAccountIdFailed,
    /// The store could not tell who owns the actor's web.
    IdentifyOwnerFailed,
    /// The store did not record the account group id.
    InsertAccountGroupIdFailed,
    /// The authorization backend could not check the permission.
    PermissionCheckFailed,
    /// The authorization backend did not change the group's relations.
    ModifyRelationsFailed,
}

/// A failed account request: the context [`AccountError`] and its cause.
#[derive(Debug, Clone, Copy, PartialEq, Eq, Hash, Structural)]
pub struct AccountReport {
    pub cause: AccountErrorCause,
}

impl AccountReport {
    pub fn new(cause: AccountErrorCause) -> (report: AccountReport)
        ensures
            report.cause == cause,
    {
        AccountReport { cause }
    }

    /// The context that every account failure is reported under.
    pub fn current_context(&self) -> (context: AccountError)
        ensures
            context == AccountError,
    {
        AccountError
    }

    pub open spec fn spec_error_code(self) -> Option<ErrorCode> {
        match self.cause {
            AccountErrorCause::Forbidden(_) => Some(ErrorCode::Forbidden),
            AccountErrorCause::AccountNotFound(_) => Some(ErrorCode::ResourceNotFound),
            _ => None,
        }
    }

    /// The error code the cause provides to the caller, if it provides one.
    pub fn error_code(&self) -> (code: Option<ErrorCode>)
        ensures
            code == self.spec_error_code(),
    {
        match &self.cause {
            AccountErrorCause::Forbidden(forbidden) => Some(forbidden.error_code()),
            AccountErrorCause::AccountNotFound(not_found) => Some(not_found.error_code()),
            _ => None,
        }
    }
}

/// A failure for `cause`.
pub open spec fn failure(cause: AccountErrorCause) -> Result<AccountResponse, AccountReport> {
    Err(AccountReport { cause })
}

/// A refusal of the request described by `info`.
pub open spec fn refusal(info: RequestInfo, reason: ForbiddenReason) -> Result<
    AccountResponse,
    AccountReport,
> {
    failure(AccountErrorCause::Forbidden(Forbidden::refusal(info, reason)))
}

/// The account to record in the graph.
#[derive(Debug, Clone, Copy, PartialEq, Eq, Hash, Structural)]
pub struct InsertAccountIdParams {
    pub account_id: AccountId,
}

/// The account group to record in the graph.
#[derive(Debug, Clone, Copy, PartialEq, Eq, Hash, Structural)]
pub struct InsertAccountGroupIdParams {
    pub account_group_id: AccountGroupId,
}

/// A request to the account service, with its parameters.
#[derive(Debug, Clone, Copy, PartialEq, Eq, Hash, Structural)]
pub enum AccountCall {
    CreateAccount { params: InsertAccountIdParams },
    CreateAccountGroup { params: InsertAccountGroupIdParams },
    CheckAccountGroupPermission {
        account_group_id: AccountGroupId,
        permission: AccountGroupPermission,
    },
    AddAccountGroupMember { account_group_id: AccountGroupId, account_id: AccountId },
    RemoveAccountGroupMember { account_group_id: AccountGroupId, account_id: AccountId },
}

impl AccountCall {
    pub open spec fn spec_procedure(self) -> AccountProcedureId {
        match self {
            AccountCall::CreateAccount { .. } => AccountProcedureId::CreateAccount,
            AccountCall::CreateAccountGroup { .. } => AccountProcedureId::CreateAccountGroup,
            AccountCall::CheckAccountGroupPermission { .. } =>
                AccountProcedureId::CheckAccountGroupPermission,
            AccountCall::AddAccountGroupMember { .. } => AccountProcedureId::AddAccountGroupMember,
            AccountCall::RemoveAccountGroupMember { .. } =>
                AccountProcedureId::RemoveAccountGroupMember,
        }
    }

    /// The procedure that serves the call.
    pub fn procedure(&self) -> (procedure: AccountProcedureId)
        ensures
            procedure == self.spec_procedure(),
    {
        match self {
            AccountCall::CreateAccount { .. } => AccountProcedureId::CreateAccount,
            AccountCall::CreateAccountGroup { .. } => AccountProcedureId::CreateAccountGroup,
            AccountCall::CheckAccountGroupPermission { .. } =>
                AccountProcedureId::CheckAccountGroupPermission,
            AccountCall::AddAccountGroupMember { .. } => AccountProcedureId::AddAccountGroupMember,
            AccountCall::RemoveAccountGroupMember { .. } =>
                AccountProcedureId::RemoveAccountGroupMember,
        }
    }
}

impl AccountCall {
    /// What serving the call amounts to once `actor_id` is known to act.
    pub open spec fn spec_task(self, actor_id: AccountId) -> AccountTask {
        match self {
            AccountCall::CreateAccount { params } => AccountTask::CreateAccount { actor_id, params },
            AccountCall::CreateAccountGroup { params } => AccountTask::CreateAccountGroup {
                actor_id,
                params,
            },
            AccountCall::CheckAccountGroupPermission { account_group_id, permission } =>
                AccountTask::Authorize {
                actor_id,
                request: PermissionRequest::Check { account_group_id, permission },
            },
            AccountCall::AddAccountGroupMember { account_group_id, account_id } =>
                AccountTask::Authorize {
                actor_id,
                request: PermissionRequest::Change {
                    change: MembershipChange {
                        kind: MembershipChangeKind::Add,
                        account_group_id,
                        account_id,
                    },
                },
            },
            AccountCall::RemoveAccountGroupMember { account_group_id, account_id } =>
                AccountTask::Authorize {
                actor_id,
                request: PermissionRequest::Change {
                    change: MembershipChange {
                        kind: MembershipChangeKind::Remove,
                        account_group_id,
                        account_id,
                    },
                },
            },
        }
    }

    pub fn task(&self, actor_id: AccountId) -> (task: AccountTask)
        ensures
            task == self.spec_task(actor_id),
    {
        match *self {
            AccountCall::CreateAccount { params } => AccountTask::CreateAccount { actor_id, params },
            AccountCall::CreateAccountGroup { params } => AccountTask::CreateAccountGroup {
                actor_id,
                params,
            },
            AccountCall::CheckAccountGroupPermission { account_group_id, permission } =>
                AccountTask::Authorize {
                actor_id,
                request: PermissionRequest::Check { account_group_id, permission },
            },
            AccountCall::AddAccountGroupMember { account_group_id, account_id } =>
                AccountTask::Authorize {
                actor_id,
                request: PermissionRequest::Change {
                    change: MembershipChange {
                        kind: MembershipChangeKind::Add,
                        account_group_id,
                        account_id,
                    },
                },
            },
            AccountCall::RemoveAccountGroupMember { account_group_id, account_id } =>
                AccountTask::Authorize {
                actor_id,
                request: PermissionRequest::Change {
                    change: MembershipChange {
                        kind: MembershipChangeKind::Remove,
                        account_group_id,
                        account_id,
                    },
                },
            },
        }
    }
}

/// The successful answer to an account request.
#[derive(Debug, Clone, Copy, PartialEq, Eq, Hash, Structural)]
pub enum AccountResponse {
    /// The account that was created.
    AccountId(AccountId),
    /// The account group that was created.
    AccountGroupId(AccountGroupId),
    /// Whether the actor holds the permission that was asked about.
    Permission(PermissionResponse),
    /// The membership was changed.
    Empty,
}

/// Whether a membership change adds or removes the member.
#[derive(Debug, Clone, Copy, PartialEq, Eq, Hash, Structural)]
pub enum MembershipChangeKind {
    Add,
    Remove,
}

/// A requested change of an account group's membership.
#[derive(Debug, Clone, Copy, PartialEq, Eq, Hash, Structural)]
pub struct MembershipChange {
    pub kind: MembershipChangeKind,
    pub account_group_id: AccountGroupId,
    pub account_id: AccountId,
}

impl MembershipChange {
    /// The permission the actor needs for the change.
    pub open spec fn required_permission(self) -> AccountGroupPermission {
        match self.kind {
            MembershipChangeKind::Add => AccountGroupPermission::AddMember,
            MembershipChangeKind::Remove => AccountGroupPermission::RemoveMember,
        }
    }

    /// How the membership relation is changed.
    pub open spec fn operation(self) -> ModifyRelationshipOperation {
        match self.kind {
            MembershipChangeKind::Add => ModifyRelationshipOperation::Create,
            MembershipChangeKind::Remove => ModifyRelationshipOperation::Delete,
        }
    }

    /// Why the change is refused to an actor without the permission.
    pub open spec fn refusal_reason(self) -> ForbiddenReason {
        match self.kind {
            MembershipChangeKind::Add => ForbiddenReason::AddAccountGroupMemberNotPermitted,
            MembershipChangeKind::Remove => ForbiddenReason::RemoveAccountGroupMemberNotPermitted,
        }
    }
}

/// A request that is decided by a permission check on an account group.
#[derive(Debug, Clone, Copy, PartialEq, Eq, Hash, Structural)]
pub enum PermissionRequest {
    /// Report whether the actor holds `permission`.
    Check { account_group_id: AccountGroupId, permission: AccountGroupPermission },
    /// Make the change if the actor holds the permission it needs.
    Change { change: MembershipChange },
}

impl PermissionRequest {
    /// The permission that is checked.
    pub open spec fn permission(self) -> AccountGroupPermission {
        match self {
            PermissionRequest::Check { permission, .. } => permission,
            PermissionRequest::Change { change } => change.required_permission(),
        }
    }

    /// The account group the permission is checked on.
    pub open spec fn account_group_id(self) -> AccountGroupId {
        match self {
            PermissionRequest::Check { account_group_id, .. } => account_group_id,
            PermissionRequest::Change { change } => change.account_group_id,
        }
    }
}

/// What an operation does once it holds the resources it needs.
#[derive(Debug, Clone, Copy, PartialEq, Eq, Hash, Structural)]
pub enum AccountTask {
    /// Record an account on behalf of the actor.
    CreateAccount { actor_id: AccountId, params: InsertAccountIdParams },
    /// Record an account group on behalf of the actor, who must own its web.
    CreateAccountGroup { actor_id: AccountId, params: InsertAccountGroupIdParams },
    /// Serve a request that a permission check of the actor decides.
    Authorize { actor_id: AccountId, request: PermissionRequest },
}

/// Where an account operation stands: the outside call it waits for, and what it
/// still needs to know to go on.
#[derive(Debug, Clone, Copy, PartialEq, Eq, Hash, Structural)]
pub enum AccountState {
    AcquiringAuthorizationApi { task: AccountTask },
    /// Only for the tasks that create an account or an account group.
    AcquiringStore { task: AccountTask },
    InsertingAccountId { params: InsertAccountIdParams },
    IdentifyingOwner { actor_id: AccountId, params: InsertAccountGroupIdParams },
    InsertingAccountGroupId { params: InsertAccountGroupIdParams },
    CheckingPermission { request: PermissionRequest },
    ModifyingRelations,
    /// The operation has answered the caller.
    Finished,
}

/// What the operation asks its runner to do next.
#[derive(Debug, Clone, Copy, PartialEq, Eq, Hash)]
pub enum AccountAction {
    /// Acquire the authorization API.
    AcquireAuthorizationApi,
    /// Acquire the store, through the authorization API just acquired.
    AcquireStore,
    /// Record the account id in the store, on behalf of the actor.
    InsertAccountId { actor_id: AccountId, params: InsertAccountIdParams },
    /// Ask the store who owns the web.
    IdentifyOwnedById { owned_by_id: OwnedById },
    /// Record the account group id in the store, on behalf of the actor.
    InsertAccountGroupId { actor_id: AccountId, params: InsertAccountGroupIdParams },
    /// Ask the authorization backend whether the actor holds the permission.
    CheckAccountGroupPermission {
        actor_id: AccountId,
        permission: AccountGroupPermission,
        account_group_id: AccountGroupId,
        consistency: Consistency,
    },
    /// Change one relation of the account group.
    ModifyAccountGroupRelations {
        operation: ModifyRelationshipOperation,
        account_group_id: AccountGroupId,
        relation: AccountGroupRelationAndSubject,
    },
    /// Answer the caller; the operation is over.
    Respond { result: Result<AccountResponse, AccountReport> },
}

/// The outcome of the outside call that an operation asked for.
#[derive(Debug, Clone, Copy, PartialEq, Eq, Hash)]
pub enum AccountEvent {
    AuthorizationApiAcquired { ok: bool },
    StoreAcquired { ok: bool },
    AccountIdInserted { ok: bool },
    /// The owner of the web, or `None` where the store could not tell.
    OwnerIdentified { owner: Option<WebOwnerSubject> },
    AccountGroupIdInserted { ok: bool },
    /// Whether the permission is held, or `None` where the check failed.
    PermissionChecked { has_permission: Option<bool> },
    RelationsModified { ok: bool },
}

/// One account request being served.
#[derive(Debug, Clone, Copy, PartialEq, Eq, Hash, Structural)]
pub struct AccountOperation {
    /// What the request was addressed to; refusals name it.
    pub request_info: RequestInfo,
    pub state: AccountState,
}

impl AccountOperation {
    pub open spec fn with_state(self, state: AccountState) -> AccountOperation {
        AccountOperation { state, ..self }
    }

    /// Go on to `state` and ask for `action`.
    pub open spec fn advance(self, state: AccountState, action: AccountAction) -> (
        AccountOperation,
        AccountAction,
    ) {
        (self.with_state(state), action)
    }

    /// Finish and answer the caller with `result`.
    pub open spec fn finish(self, result: Result<AccountResponse, AccountReport>) -> (
        AccountOperation,
        AccountAction,
    ) {
        (self.with_state(AccountState::Finished), AccountAction::Respond { result })
    }

    /// The next operation and action once `event` reports the outcome of the pending
    /// call; `None` where `event` does not answer the call the operation waits for.
    pub open spec fn spec_step(self, event: AccountEvent) -> Option<
        (AccountOperation, AccountAction),
    > {
        match (self.state, event) {
            (
                AccountState::AcquiringAuthorizationApi { task },
                AccountEvent::AuthorizationApiAcquired { ok },
            ) => Some(
                if !ok {
                    self.finish(failure(AccountErrorCause::AuthorizationApiUnavailable))
                } else {
                    match task {
                        AccountTask::Authorize { actor_id, request } => self.advance(
                            AccountState::CheckingPermission { request },
                            AccountAction::CheckAccountGroupPermission {
                                actor_id,
                                permission: request.permission(),
                                account_group_id: request.account_group_id(),
                                consistency: Consistency::FullyConsistent,
                            },
                        ),
                        _ => self.advance(
                            AccountState::AcquiringStore { task },
                            AccountAction::AcquireStore,
                        ),
                    }
                },
            ),
            (AccountState::AcquiringStore { task }, AccountEvent::StoreAcquired { ok }) => match task {
                AccountTask::CreateAccount { actor_id, params } => Some(
                    if ok {
                        self.advance(
                            AccountState::InsertingAccountId { params },
                            AccountAction::InsertAccountId { actor_id, params },
                        )
                    } else {
                        self.finish(failure(AccountErrorCause::StoreUnavailable))
                    },
                ),
                AccountTask::CreateAccountGroup { actor_id, params } => Some(
                    if ok {
                        self.advance(
                            AccountState::IdentifyingOwner { actor_id, params },
                            AccountAction::IdentifyOwnedById { owned_by_id: OwnedById(actor_id.0) },
                        )
                    } else {
                        self.finish(failure(AccountErrorCause::StoreUnavailable))
                    },
                ),
                AccountTask::Authorize { .. } => None,
            },
            (AccountState::InsertingAccountId { params }, AccountEvent::AccountIdInserted { ok }) =>
                Some(
                self.finish(
                    if ok {
                        Ok(AccountResponse::AccountId(params.account_id))
                    } else {
                        failure(AccountErrorCause::InsertAccountIdFailed)
                    },
                ),
            ),
            (
                AccountState::IdentifyingOwner { actor_id, params },
                AccountEvent::OwnerIdentified { owner },
            ) => Some(
                match owner {
                    None => self.finish(failure(AccountErrorCause::IdentifyOwnerFailed)),
                    Some(owner) => if owner == (WebOwnerSubject::Account { id: actor_id }) {
                        self.advance(
                            AccountState::InsertingAccountGroupId { params },
                            AccountAction::InsertAccountGroupId { actor_id, params },
                        )
                    } else {
                        self.finish(
                            failure(
                                AccountErrorCause::AccountNotFound(
                                    AccountNotFoundError { id: actor_id },
                                ),
                            ),
                        )
                    },
                },
            ),
            (
                AccountState::InsertingAccountGroupId { params },
                AccountEvent::AccountGroupIdInserted { ok },
            ) => Some(
                self.finish(
                    if ok {
                        Ok(AccountResponse::AccountGroupId(params.account_group_id))
                    } else {
                        failure(AccountErrorCause::InsertAccountGroupIdFailed)
                    },
                ),
            ),
            (
                AccountState::CheckingPermission { request },
                AccountEvent::PermissionChecked { has_permission },
            ) => Some(
                match has_permission {
                    None => self.finish(failure(AccountErrorCause::PermissionCheckFailed)),
                    Some(granted) => match request {
                        PermissionRequest::Check { .. } => self.finish(
                            Ok(
                                AccountResponse::Permission(
                                    PermissionResponse { has_permission: granted },
                                ),
                            ),
                        ),
                        PermissionRequest::Change { change } => if granted {
                            self.advance(
                                AccountState::ModifyingRelations,
                                AccountAction::ModifyAccountGroupRelations {
                                    operation: change.operation(),
                                    account_group_id: change.account_group_id,
                                    relation: direct_membership(change.account_id),
                                },
                            )
                        } else {
                            self.finish(refusal(self.request_info, change.refusal_reason()))
                        },
                    },
                },
            ),
            (AccountState::ModifyingRelations, AccountEvent::RelationsModified { ok }) => Some(
                self.finish(
                    if ok {
                        Ok(AccountResponse::Empty)
                    } else {
                        failure(AccountErrorCause::ModifyRelationsFailed)
                    },
                ),
            ),
            _ => None,
        }
    }

    /// Whether the operation has answered the caller.
    pub fn is_finished(&self) -> (finished: bool)
        ensures
            finished == (self.state == AccountState::Finished),
    {
        match self.state {
            AccountState::Finished => true,
            _ => false,
        }
    }

    /// Takes the outcome of the pending outside call to the next operation and action;
    /// `None` where `event` does not answer the call the operation waits for.
    pub fn step(self, event: AccountEvent) -> (next: Option<(AccountOperation, AccountAction)>)
        ensures
            next == self.spec_step(event),
    {
        let info = self.request_info;
        match (self.state, event) {
            (
                AccountState::AcquiringAuthorizationApi { task },
                AccountEvent::AuthorizationApiAcquired { ok },
            ) => {
                if !ok {
                    Some(Self::finished(info, AccountErrorCause::AuthorizationApiUnavailable))
                } else {
                    match task {
                        AccountTask::Authorize { actor_id, request } => {
                            let (permission, account_group_id) = match request {
                                PermissionRequest::Check { account_group_id, permission } => (
                                    permission,
                                    account_group_id,
                                ),
                                PermissionRequest::Change { change } => (
                                    match change.kind {
                                        MembershipChangeKind::Add =>
                                            AccountGroupPermission::AddMember,
                                        MembershipChangeKind::Remove =>
                                            AccountGroupPermission::RemoveMember,
                                    },
                                    change.account_group_id,
                                ),
                            };
                            Some(
                                (
                                    AccountOperation {
                                        request_info: info,
                                        state: AccountState::CheckingPermission { request },
                                    },
                                    AccountAction::CheckAccountGroupPermission {
                                        actor_id,
                                        permission,
                                        account_group_id,
                                        consistency: Consistency::FullyConsistent,
                                    },
                                ),
                            )
                        },
                        _ => Some(
                            (
                                AccountOperation {
                                    request_info: info,
                                    state: AccountState::AcquiringStore { task },
                                },
                                AccountAction::AcquireStore,
                            ),
                        ),
                    }
                }
            },
            (AccountState::AcquiringStore { task }, AccountEvent::StoreAcquired { ok }) => {
                match task {
                    AccountTask::CreateAccount { actor_id, params } => {
                        if ok {
                            Some(
                                (
                                    AccountOperation {
                                        request_info: info,
                                        state: AccountState::InsertingAccountId { params },
                                    },
                                    AccountAction::InsertAccountId { actor_id, params },
                                ),
                            )
                        } else {
                            Some(Self::finished(info, AccountErrorCause::StoreUnavailable))
                        }
                    },
                    AccountTask::CreateAccountGroup { actor_id, params } => {
                        if ok {
                            Some(
                                (
                                    AccountOperation {
                                        request_info: info,
                                        state: AccountState::IdentifyingOwner { actor_id, params },
                                    },
                                    AccountAction::IdentifyOwnedById {
                                        owned_by_id: OwnedById::from_account_id(actor_id),
                                    },
                                ),
                            )
                        } else {
                            Some(Self::finished(info, AccountErrorCause::StoreUnavailable))
                        }
                    },
                    AccountTask::Authorize { .. } => None,
                }
            },
            (AccountState::InsertingAccountId { params }, AccountEvent::AccountIdInserted { ok }) => {
                if ok {
                    Some(Self::answered(info, AccountResponse::AccountId(params.account_id)))
                } else {
                    Some(Self::finished(info, AccountErrorCause::InsertAccountIdFailed))
                }
            },
            (
                AccountState::IdentifyingOwner { actor_id, params },
                AccountEvent::OwnerIdentified { owner },
            ) => {
                match owner {
                    None => Some(Self::finished(info, AccountErrorCause::IdentifyOwnerFailed)),
                    Some(owner) => {
                        if owner == (WebOwnerSubject::Account { id: actor_id }) {
                            Some(
                                (
                                    AccountOperation {
                                        request_info: info,
                                        state: AccountState::InsertingAccountGroupId { params },
                                    },
                                    AccountAction::InsertAccountGroupId { actor_id, params },
                                ),
                            )
                        } else {
                            Some(
                                Self::finished(
                                    info,
                                    AccountErrorCause::AccountNotFound(
                                        AccountNotFoundError { id: actor_id },
                                    ),
                                ),
                            )
                        }
                    },
                }
            },
            (
                AccountState::InsertingAccountGroupId { params },
                AccountEvent::AccountGroupIdInserted { ok },
            ) => {
                if ok {
                    Some(
                        Self::answered(
                            info,
                            AccountResponse::AccountGroupId(params.account_group_id),
                        ),
                    )
                } else {
                    Some(Self::finished(info, AccountErrorCause::InsertAccountGroupIdFailed))
                }
            },
            (
                AccountState::CheckingPermission { request },
                AccountEvent::PermissionChecked { has_permission },
            ) => {
                match has_permission {
                    None => Some(Self::finished(info, AccountErrorCause::PermissionCheckFailed)),
                    Some(granted) => match request {
                        PermissionRequest::Check { .. } => Some(
                            Self::answered(
                                info,
                                AccountResponse::Permission(
                                    PermissionResponse { has_permission: granted },
                                ),
                            ),
                        ),
                        PermissionRequest::Change { change } => {
                            if granted {
                                let operation = match change.kind {
                                    MembershipChangeKind::Add => ModifyRelationshipOperation::Create,
                                    MembershipChangeKind::Remove =>
                                        ModifyRelationshipOperation::Delete,
                                };
                                Some(
                                    (
                                        AccountOperation {
                                            request_info: info,
                                            state: AccountState::ModifyingRelations,
                                        },
                                        AccountAction::ModifyAccountGroupRelations {
                                            operation,
                                            account_group_id: change.account_group_id,
                                            relation: AccountGroupRelationAndSubject::Member {
                                                subject: AccountGroupMemberSubject::Account {
                                                    id: change.account_id,
                                                },
                                                level: 0,
                                            },
                                        },
                                    ),
                                )
                            } else {
                                let reason = match change.kind {
                                    MembershipChangeKind::Add =>
                                        ForbiddenReason::AddAccountGroupMemberNotPermitted,
                                    MembershipChangeKind::Remove =>
                                        ForbiddenReason::RemoveAccountGroupMemberNotPermitted,
                                };
                                Some(
                                    Self::finished(
                                        info,
                                        AccountErrorCause::Forbidden(Forbidden::new(info, reason)),
                                    ),
                                )
                            }
                        },
                    },
                }
            },
            (AccountState::ModifyingRelations, AccountEvent::RelationsModified { ok }) => {
                if ok {
                    Some(Self::answered(info, AccountResponse::Empty))
                } else {
                    Some(Self::finished(info, AccountErrorCause::ModifyRelationsFailed))
                }
            },
            _ => None,
        }
    }

    /// The finished operation that answers with `response`.
    fn answered(info: RequestInfo, response: AccountResponse) -> (next: (
        AccountOperation,
        AccountAction,
    ))
        ensures
            next == (AccountOperation { request_info: info, state: AccountState::Finished }).finish(
                Ok(response),
            ),
    {
        (
            AccountOperation { request_info: info, state: AccountState::Finished },
            AccountAction::Respond { result: Ok(response) },
        )
    }

    /// The finished operation that fails for `cause`.
    fn finished(info: RequestInfo, cause: AccountErrorCause) -> (next: (
        AccountOperation,
        AccountAction,
    ))
        ensures
            next == (AccountOperation { request_info: info, state: AccountState::Finished }).finish(
                failure(cause),
            ),
    {
        (
            AccountOperation { request_info: info, state: AccountState::Finished },
            AccountAction::Respond { result: Err(AccountReport::new(cause)) },
        )
    }
}

/// The server side of the account service.
#[derive(Debug, Clone, Copy, PartialEq, Eq, Hash)]
pub struct AccountServer;

impl AccountServer {
    /// The actor of the session, or a refusal where nobody is authenticated on it.
    pub open spec fn spec_actor(session: Session) -> Result<AccountId, AccountReport> {
        match session.account.actor_id {
            Some(actor_id) => Ok(actor_id),
            None => Err(
                AccountReport {
                    cause: AccountErrorCause::Forbidden(
                        Forbidden::refusal(
                            session.request_info,
                            ForbiddenReason::AuthenticationRequired,
                        ),
                    ),
                },
            ),
        }
    }

    pub fn actor(session: &Session) -> (actor: Result<AccountId, AccountReport>)
        ensures
            actor == Self::spec_actor(*session),
    {
        match session.get().actor_id {
            Some(actor_id) => Ok(actor_id),
            None => Err(
                AccountReport::new(
                    AccountErrorCause::Forbidden(
                        Forbidden::new(
                            session.request_info(),
                            ForbiddenReason::AuthenticationRequired,
                        ),
                    ),
                ),
            ),
        }
    }

    /// The first operation and action for `call` on `session`: a refusal where nobody
    /// is authenticated, otherwise acquiring the authorization API for the call's task.
    pub open spec fn spec_start(call: AccountCall, session: Session) -> (
        AccountOperation,
        AccountAction,
    ) {
        let operation = |state: AccountState|
            AccountOperation { request_info: session.request_info, state };
        match Self::spec_actor(session) {
            Err(report) => operation(AccountState::Finished).finish(Err(report)),
            Ok(actor_id) => (
                operation(AccountState::AcquiringAuthorizationApi { task: call.spec_task(actor_id) }),
                AccountAction::AcquireAuthorizationApi,
            ),
        }
    }

    /// Starts serving `call` on `session`.
    pub fn start(&self, call: AccountCall, session: &Session) -> (start: (
        AccountOperation,
        AccountAction,
    ))
        ensures
            start == Self::spec_start(call, *session),
    {
        let info = session.request_info();
        match Self::actor(session) {
            Err(report) => (
                AccountOperation { request_info: info, state: AccountState::Finished },
                AccountAction::Respond { result: Err(report) },
            ),
            Ok(actor_id) => (
                AccountOperation {
                    request_info: info,
                    state: AccountState::AcquiringAuthorizationApi { task: call.task(actor_id) },
                },
                AccountAction::AcquireAuthorizationApi,
            ),
        }
    }
}

/// The procedure a request names, or the error for an identifier the service lacks.
pub open spec fn spec_route_account_procedure(id: ProcedureId) -> Result<
    AccountProcedureId,
    DelegationError,
> {
    match AccountProcedureId::spec_from_id(id) {
        Some(procedure) => Ok(procedure),
        None => Err(DelegationError::UnknownProcedure { procedure: id }),
    }
}

/// Hands requests for the account service to the service implementation `inner`.
#[derive(Debug, Clone, Copy, PartialEq, Eq, Hash)]
pub struct AccountDelegate<T> {
    inner: T,
}

impl<T> AccountDelegate<T> {
    pub closed spec fn spec_inner(&self) -> T {
        self.inner
    }

    pub fn new(inner: T) -> (delegate: Self)
        ensures
            delegate.spec_inner() == inner,
    {
        AccountDelegate { inner }
    }

    /// The service implementation that requests are handed to.
    pub fn inner(&self) -> (inner: &T)
        ensures
            *inner == self.spec_inner(),
    {
        &self.inner
    }

    /// The procedure that serves a request for `id`.
    pub fn route(&self, id: ProcedureId) -> (procedure: Result<AccountProcedureId, DelegationError>)
        ensures
            procedure == spec_route_account_procedure(id),
    {
        match AccountProcedureId::from_id(id) {
            Some(procedure) => Ok(procedure),
            None => Err(DelegationError::UnknownProcedure { procedure: id }),
        }
    }
}

/// The client side of the account service.
#[derive(Debug, Clone, Copy, PartialEq, Eq, Hash)]
pub struct AccountClient;

impl AccountClient {
    /// What the client sends ahead of `call`: the account service, its version, and the
    /// identifier of the procedure serving the call.
    pub open spec fn spec_invocation(call: AccountCall) -> Invocation {
        Invocation {
            service: AccountService::spec_id(),
            version: initial_version(),
            procedure: call.spec_procedure().spec_into_id(),
        }
    }

    pub fn invocation(&self, call: &AccountCall) -> (invocation: Invocation)
        ensures
            invocation == Self::spec_invocation(*call),
    {
        Invocation {
            service: AccountService::id(),
            version: AccountService::version(),
            procedure: call.procedure().into_id(),
        }
    }
}

} // verus!
