//! Identifiers and metadata of the authentication service and its procedure.

use vstd::prelude::*;
use crate::rpc::{
    initial_metadata, initial_version, metadata_since_initial_version, Metadata, ProcedureId,
    ServiceId, Version,
};

verus! {

/// The procedures of the authentication service.
#[derive(Debug, Clone, Copy, PartialEq, Eq, Hash, Structural)]
pub enum AuthenticationProcedureId {
    Authenticate,
}

impl AuthenticationProcedureId {
    /// The procedure a wire identifier names: 0 names `Authenticate`, nothing else names
    /// a procedure.
    pub open spec fn spec_from_id(id: ProcedureId) -> Option<AuthenticationProcedureId> {
        if id.value == 0 {
            Some(AuthenticationProcedureId::Authenticate)
        } else {
            None
        }
    }

    pub open spec fn spec_into_id(self) -> ProcedureId {
        ProcedureId { value: 0 }
    }

    pub fn from_id(id: ProcedureId) -> (procedure: Option<AuthenticationProcedureId>)
        ensures
            procedure == Self::spec_from_id(id),
    {
        match id.value() {
            0 => Some(AuthenticationProcedureId::Authenticate),
            _ => None,
        }
    }

    pub fn into_id(self) -> (id: ProcedureId)
        ensures
            id == self.spec_into_id(),
    {
        match self {
            AuthenticationProcedureId::Authenticate => ProcedureId::new(0),
        }
    }
}

/// Decoding the identifier of the procedure gives the procedure back, and only the
/// identifier 0 names a procedure.
pub proof fn lemma_authentication_procedure_id_round_trip(
    procedure: AuthenticationProcedureId,
    id: ProcedureId,
)
    ensures
        AuthenticationProcedureId::spec_from_id(procedure.spec_into_id()) == Some(procedure),
        AuthenticationProcedureId::spec_from_id(id) is Some <==> id.value == 0,
{
}

/// The authentication service.
#[derive(Debug, Clone, Copy, PartialEq, Eq, Hash)]
pub struct AuthenticationService;

impl AuthenticationService {
    pub open spec fn spec_id() -> ServiceId {
        ServiceId { value: 0 }
    }

    /// The service's wire identifier, 0.
    pub fn id() -> (id: ServiceId)
        ensures
            id == Self::spec_id(),
    {
        ServiceId::new(0)
    }

    /// The version the service speaks, 0.0.
    pub fn version() -> (version: Version)
        ensures
            version == initial_version(),
    {
        Version { major: 0, minor: 0 }
    }

    /// The service exists since 0.0 and is not deprecated.
    pub fn metadata() -> (metadata: Metadata)
        ensures
            metadata == initial_metadata(),
    {
        metadata_since_initial_version()
    }

    /// The procedures the service offers.
    pub fn procedures() -> (procedures: Vec<AuthenticationProcedureId>)
        ensures
            procedures@ == seq![AuthenticationProcedureId::Authenticate],
    {
        let mut procedures = Vec::new();
        procedures.push(ProcedureAuthenticate::id());
        procedures
    }
}

/// The procedure that authenticates the actor of a session.
#[derive(Debug, Clone, Copy, PartialEq, Eq, Hash)]
pub struct ProcedureAuthenticate;

impl ProcedureAuthenticate {
    pub fn id() -> (id: AuthenticationProcedureId)
        ensures
            id == AuthenticationProcedureId::Authenticate,
    {
        AuthenticationProcedureId::Authenticate
    }

    pub fn metadata() -> (metadata: Metadata)
        ensures
            metadata == initial_metadata(),
    {
        metadata_since_initial_version()
    }
}

} // verus!
