//! Identifiers and metadata of the account service and its procedures.

use vstd::prelude::*;
use crate::rpc::{
    initial_metadata, initial_version, metadata_since_initial_version, Metadata, ProcedureId,
    ServiceId, Version,
};

verus! {

/// The procedures of the account service.
#[derive(Debug, Clone, Copy, PartialEq, Eq, Hash, Structural)]
pub enum AccountProcedureId {
    CreateAccount,
    CreateAccountGroup,
    CheckAccountGroupPermission,
    AddAccountGroupMember,
    RemoveAccountGroupMember,
}

impl AccountProcedureId {
    /// The procedure a wire identifier names: 0 to 4 in declaration order, nothing else.
    pub open spec fn spec_from_id(id: ProcedureId) -> Option<AccountProcedureId> {
        if id.value == 0 {
            Some(AccountProcedureId::CreateAccount)
        } else if id.value == 1 {
            Some(AccountProcedureId::CreateAccountGroup)
        } else if id.value == 2 {
            Some(AccountProcedureId::CheckAccountGroupPermission)
        } else if id.value == 3 {
            Some(AccountProcedureId::AddAccountGroupMember)
        } else if id.value == 4 {
            Some(AccountProcedureId::RemoveAccountGroupMember)
        } else {
            None
        }
    }

    /// The wire identifier of a procedure.
    pub open spec fn spec_into_id(self) -> ProcedureId {
        ProcedureId {
            value: match self {
                AccountProcedureId::CreateAccount => 0,
                AccountProcedureId::CreateAccountGroup => 1,
                AccountProcedureId::CheckAccountGroupPermission => 2,
                AccountProcedureId::AddAccountGroupMember => 3,
                AccountProcedureId::RemoveAccountGroupMember => 4,
            },
        }
    }

    pub fn from_id(id: ProcedureId) -> (procedure: Option<AccountProcedureId>)
        ensures
            procedure == Self::spec_from_id(id),
    {
        match id.value() {
            0 => Some(AccountProcedureId::CreateAccount),
            1 => Some(AccountProcedureId::CreateAccountGroup),
            2 => Some(AccountProcedureId::CheckAccountGroupPermission),
            3 => Some(AccountProcedureId::AddAccountGroupMember),
            4 => Some(AccountProcedureId::RemoveAccountGroupMember),
            _ => None,
        }
    }

    pub fn into_id(self) -> (id: ProcedureId)
        ensures
            id == self.spec_into_id(),
    {
        match self {
            AccountProcedureId::CreateAccount => ProcedureId::new(0),
            AccountProcedureId::CreateAccountGroup => ProcedureId::new(1),
            AccountProcedureId::CheckAccountGroupPermission => ProcedureId::new(2),
            AccountProcedureId::AddAccountGroupMember => ProcedureId::new(3),
            AccountProcedureId::RemoveAccountGroupMember => ProcedureId::new(4),
        }
    }
}

/// Decoding the identifier of a procedure gives the procedure back.
pub proof fn lemma_account_procedure_id_round_trip(procedure: AccountProcedureId)
    ensures
        AccountProcedureId::spec_from_id(procedure.spec_into_id()) == Some(procedure),
{
}

/// Exactly the identifiers 0 to 4 name a procedure, and each names the procedure whose
/// identifier it is.
pub proof fn lemma_account_procedure_id_decoding(id: ProcedureId)
    ensures
        AccountProcedureId::spec_from_id(id) is Some <==> id.value < 5,
        AccountProcedureId::spec_from_id(id) matches Some(procedure) ==> procedure.spec_into_id()
            == id,
{
}

/// The wire identifiers of the account service's procedures are fixed: creating an account
/// is 0, creating an account group 1, checking a permission 2, adding a member 3 and
/// removing a member 4; these identifiers name exactly those procedures, and no other
/// identifier names a procedure.
pub proof fn lemma_account_procedure_wire_identifiers()
    ensures
        AccountProcedureId::CreateAccount.spec_into_id() == (ProcedureId { value: 0 }),
        AccountProcedureId::CreateAccountGroup.spec_into_id() == (ProcedureId { value: 1 }),
        AccountProcedureId::CheckAccountGroupPermission.spec_into_id() == (ProcedureId {
            value: 2,
        }),
        AccountProcedureId::AddAccountGroupMember.spec_into_id() == (ProcedureId { value: 3 }),
        AccountProcedureId::RemoveAccountGroupMember.spec_into_id() == (ProcedureId { value: 4 }),
        AccountProcedureId::spec_from_id(ProcedureId { value: 0 }) == Some(
            AccountProcedureId::CreateAccount,
        ),
        AccountProcedureId::spec_from_id(ProcedureId { value: 1 }) == Some(
            AccountProcedureId::CreateAccountGroup,
        ),
        AccountProcedureId::spec_from_id(ProcedureId { value: 2 }) == Some(
            AccountProcedureId::CheckAccountGroupPermission,
        ),
        AccountProcedureId::spec_from_id(ProcedureId { value: 3 }) == Some(
            AccountProcedureId::AddAccountGroupMember,
        ),
        AccountProcedureId::spec_from_id(ProcedureId { value: 4 }) == Some(
            AccountProcedureId::RemoveAccountGroupMember,
        ),
        forall|value: u16|
            value >= 5 ==> #[trigger] AccountProcedureId::spec_from_id(ProcedureId { value })
                is None,
{
}

/// The service lists its procedures in the order of their wire identifiers: creating an
/// account, creating an account group, checking a permission, adding a member, removing
/// a member.
pub proof fn lemma_account_service_procedure_order()
    ensures
        AccountService::spec_procedures() =~= seq![
            AccountProcedureId::CreateAccount,
            AccountProcedureId::CreateAccountGroup,
            AccountProcedureId::CheckAccountGroupPermission,
            AccountProcedureId::AddAccountGroupMember,
            AccountProcedureId::RemoveAccountGroupMember,
        ],
        forall|i: int|
            0 <= i < AccountService::spec_procedures().len() ==> (#[trigger] AccountService::spec_procedures()[i]).spec_into_id().value == i,
{
    assert forall|i: int|
        0 <= i < AccountService::spec_procedures().len() implies (
        #[trigger] AccountService::spec_procedures()[i]).spec_into_id().value == i by {
        if i == 0 {
        } else if i == 1 {
        } else if i == 2 {
        } else if i == 3 {
        } else {
        }
    }
}

/// Distinct procedures have distinct identifiers.
pub proof fn lemma_account_procedure_id_injective(a: AccountProcedureId, b: AccountProcedureId)
    ensures
        a.spec_into_id() == b.spec_into_id() ==> a == b,
{
}

/// The account service.
#[derive(Debug, Clone, Copy, PartialEq, Eq, Hash)]
pub struct AccountService;

impl AccountService {
    pub open spec fn spec_id() -> ServiceId {
        ServiceId { value: 1 }
    }

    /// The service's wire identifier, 1.
    pub fn id() -> (id: ServiceId)
        ensures
            id == Self::spec_id(),
    {
        ServiceId::new(1)
    }

    /// The version the service speaks, 0.0.
    pub fn version() -> (version: Version)
        ensures
            version == initial_version(),
    {
        Version { major: 0, minor: 0 }
    }

    /// The service exists since 0.0 and is not deprecated.
    pub fn metadata() -> (metadata: Metadata)
        ensures
            metadata == initial_metadata(),
    {
        metadata_since_initial_version()
    }

    pub open spec fn spec_procedures() -> Seq<AccountProcedureId> {
        seq![
            AccountProcedureId::CreateAccount,
            AccountProcedureId::CreateAccountGroup,
            AccountProcedureId::CheckAccountGroupPermission,
            AccountProcedureId::AddAccountGroupMember,
            AccountProcedureId::RemoveAccountGroupMember,
        ]
    }

    /// The procedures the service offers, in order.
    pub fn procedures() -> (procedures: Vec<AccountProcedureId>)
        ensures
            procedures@ == Self::spec_procedures(),
    {
        let mut procedures = Vec::new();
        procedures.push(ProcedureCreateAccount::id());
        procedures.push(ProcedureCreateAccountGroup::id());
        procedures.push(ProcedureCheckAccountGroupPermission::id());
        procedures.push(ProcedureAddAccountGroupMember::id());
        procedures.push(ProcedureRemoveAccountGroupMember::id());
        procedures
    }
}

/// The service lists every procedure once, and the procedure at position `i` has the
/// identifier `i`.
pub proof fn lemma_account_service_lists_every_procedure(procedure: AccountProcedureId)
    ensures
        AccountService::spec_procedures().contains(procedure),
        AccountService::spec_procedures()[procedure.spec_into_id().value as int] == procedure,
        AccountService::spec_procedures().len() == 5,
{
    assert(AccountService::spec_procedures()[procedure.spec_into_id().value as int] == procedure);
}

/// The procedure that creates an account.
#[derive(Debug, Clone, Copy, PartialEq, Eq, Hash)]
pub struct ProcedureCreateAccount;

impl ProcedureCreateAccount {
    pub fn id() -> (id: AccountProcedureId)
        ensures
            id == AccountProcedureId::CreateAccount,
    {
        AccountProcedureId::CreateAccount
    }

    pub fn metadata() -> (metadata: Metadata)
        ensures
            metadata == initial_metadata(),
    {
        metadata_since_initial_version()
    }
}

/// The procedure that creates an account group.
#[derive(Debug, Clone, Copy, PartialEq, Eq, Hash)]
pub struct ProcedureCreateAccountGroup;

impl ProcedureCreateAccountGroup {
    pub fn id() -> (id: AccountProcedureId)
        ensures
            id == AccountProcedureId::CreateAccountGroup,
    {
        AccountProcedureId::CreateAccountGroup
    }

    pub fn metadata() -> (metadata: Metadata)
        ensures
            metadata == initial_metadata(),
    {
        metadata_since_initial_version()
    }
}

/// The procedure that checks a permission on an account group.
#[derive(Debug, Clone, Copy, PartialEq, Eq, Hash)]
pub struct ProcedureCheckAccountGroupPermission;

impl ProcedureCheckAccountGroupPermission {
    pub fn id() -> (id: AccountProcedureId)
        ensures
            id == AccountProcedureId::CheckAccountGroupPermission,
    {
        AccountProcedureId::CheckAccountGroupPermission
    }

    pub fn metadata() -> (metadata: Metadata)
        ensures
            metadata == initial_metadata(),
    {
        metadata_since_initial_version()
    }
}

/// The procedure that adds a member to an account group.
#[derive(Debug, Clone, Copy, PartialEq, Eq, Hash)]
pub struct ProcedureAddAccountGroupMember;

impl ProcedureAddAccountGroupMember {
    pub fn id() -> (id: AccountProcedureId)
        ensures
            id == AccountProcedureId::AddAccountGroupMember,
    {
        AccountProcedureId::AddAccountGroupMember
    }

    pub fn metadata() -> (metadata: Metadata)
        ensures
            metadata == initial_metadata(),
    {
        metadata_since_initial_version()
    }
}

/// The procedure that removes a member from an account group.
#[derive(Debug, Clone, Copy, PartialEq, Eq, Hash)]
pub struct ProcedureRemoveAccountGroupMember;

impl ProcedureRemoveAccountGroupMember {
    pub fn id() -> (id: AccountProcedureId)
        ensures
            id == AccountProcedureId::RemoveAccountGroupMember,
    {
        AccountProcedureId::RemoveAccountGroupMember
    }

    pub fn metadata() -> (metadata: Metadata)
        ensures
            metadata == initial_metadata(),
    {
        metadata_since_initial_version()
    }
}

} // verus!
