//! The RPC protocol's plain values: service and procedure identifiers, versions,
//! the metadata a service publishes, and the information a request carries about
//! where it was sent.

use vstd::prelude::*;

verus! {

/// Identifier of a service on the wire.
#[derive(Debug, Clone, Copy, PartialEq, Eq, Hash, Structural)]
pub struct ServiceId {
    pub value: u16,
}

impl ServiceId {
    pub fn new(value: u16) -> (id: ServiceId)
        ensures
            id.value == value,
    {
        ServiceId { value }
    }
}

/// Identifier of a procedure inside its service.
#[derive(Debug, Clone, Copy, PartialEq, Eq, Hash, Structural)]
pub struct ProcedureId {
    pub value: u16,
}

impl ProcedureId {
    pub fn new(value: u16) -> (id: ProcedureId)
        ensures
            id.value == value,
    {
        ProcedureId { value }
    }

    pub fn value(&self) -> (value: u16)
        ensures
            value == self.value,
    {
        self.value
    }
}

/// A `major.minor` version of a service or a procedure.
#[derive(Debug, Clone, Copy, PartialEq, Eq, Hash, Structural)]
pub struct Version {
    pub major: u8,
    pub minor: u8,
}

/// What a service or a procedure publishes about itself: the version it exists
/// since, and the version it is deprecated in, if any.
#[derive(Debug, Clone, Copy, PartialEq, Eq, Hash)]
pub struct Metadata {
    pub since: Version,
    pub deprecation: Option<Version>,
}

/// The initial version, 0.0.
pub open spec fn initial_version() -> Version {
    Version { major: 0, minor: 0 }
}

/// Metadata of an item that exists since the initial version and is not deprecated.
pub open spec fn initial_metadata() -> Metadata {
    Metadata { since: initial_version(), deprecation: None }
}

/// Builds the metadata of an item that exists since 0.0 and is not deprecated.
pub fn metadata_since_initial_version() -> (metadata: Metadata)
    ensures
        metadata == initial_metadata(),
{
    Metadata { since: Version { major: 0, minor: 0 }, deprecation: None }
}

/// The service and the procedure that a request was addressed to.
#[derive(Debug, Clone, Copy, PartialEq, Eq, Hash, Structural)]
pub struct RequestInfo {
    pub service: ServiceId,
    pub procedure: ProcedureId,
}

/// What a client sends ahead of a call's payload: the service, its version, and
/// the procedure to invoke.
#[derive(Debug, Clone, Copy, PartialEq, Eq, Hash, Structural)]
pub struct Invocation {
    pub service: ServiceId,
    pub version: Version,
    pub procedure: ProcedureId,
}

/// The error codes that a failed call reports to the caller.
#[derive(Debug, Clone, Copy, PartialEq, Eq, Hash, Structural)]
pub enum ErrorCode {
    /// The caller may not perform the call.
    Forbidden,
    /// A resource that the call needs does not exist.
    ResourceNotFound,
}

/// A call that the caller was not allowed to make, with the reason it was refused.
#[derive(Debug, Clone, Copy, PartialEq, Eq, Hash, Structural)]
pub struct Forbidden {
    pub service: ServiceId,
    pub procedure: ProcedureId,
    pub reason: ForbiddenReason,
}

/// Why a call was refused.
#[derive(Debug, Clone, Copy, PartialEq, Eq, Hash, Structural)]
pub enum ForbiddenReason {
    AuthenticationRequired,
    AddAccountGroupMemberNotPermitted,
    RemoveAccountGroupMemberNotPermitted,
}

impl ForbiddenReason {
    /// The reason as the text sent to the caller.
    pub fn as_str(&self) -> (text: &'static str)
        ensures
            text@ == self.text(),
    {
        match self {
            ForbiddenReason::AuthenticationRequired => "user authentication required",
            ForbiddenReason::AddAccountGroupMemberNotPermitted =>
                "actor does not have permission to add account group member",
            ForbiddenReason::RemoveAccountGroupMemberNotPermitted =>
                "actor does not have permission to remove account group member",
        }
    }

    pub open spec fn text(self) -> Seq<char> {
        match self {
            ForbiddenReason::AuthenticationRequired => "user authentication required"@,
            ForbiddenReason::AddAccountGroupMemberNotPermitted =>
                "actor does not have permission to add account group member"@,
            ForbiddenReason::RemoveAccountGroupMemberNotPermitted =>
                "actor does not have permission to remove account group member"@,
        }
    }
}

impl Forbidden {
    /// A refusal of the request described by `info`, for `reason`.
    pub fn new(info: RequestInfo, reason: ForbiddenReason) -> (forbidden: Forbidden)
        ensures
            forbidden == Forbidden::refusal(info, reason),
    {
        Forbidden { service: info.service, procedure: info.procedure, reason }
    }

    pub open spec fn refusal(info: RequestInfo, reason: ForbiddenReason) -> Forbidden {
        Forbidden { service: info.service, procedure: info.procedure, reason }
    }

    /// A refusal is reported with the code `Forbidden`.
    pub fn error_code(&self) -> (code: ErrorCode)
        ensures
            code == ErrorCode::Forbidden,
    {
        ErrorCode::Forbidden
    }
}

/// The request could not be handed to the service.
#[derive(Debug, Clone, Copy, PartialEq, Eq, Hash, Structural)]
pub enum DelegationError {
    /// The request names a procedure that the service does not have.
    UnknownProcedure { procedure: ProcedureId },
}

} // verus!
