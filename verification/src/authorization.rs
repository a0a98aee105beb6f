//! The authorization model's values that the account service reads and writes.

use vstd::prelude::*;
use crate::ids::{AccountGroupId, AccountId};

verus! {

/// Permissions that an actor may hold on an account group.
#[derive(Debug, Clone, Copy, PartialEq, Eq, Hash, Structural)]
pub enum AccountGroupPermission {
    AddMember,
    RemoveMember,
}

/// The owner of a web: an account or an account group.
#[derive(Debug, Clone, Copy, PartialEq, Eq, Hash, Structural)]
pub enum WebOwnerSubject {
    Account { id: AccountId },
    AccountGroup { id: AccountGroupId },
}

/// How a relationship is changed.
#[derive(Debug, Clone, Copy, PartialEq, Eq, Hash, Structural)]
pub enum ModifyRelationshipOperation {
    Touch,
    Create,
    Delete,
}

/// A subject that can be a member of an account group.
#[derive(Debug, Clone, Copy, PartialEq, Eq, Hash, Structural)]
pub enum AccountGroupMemberSubject {
    Account { id: AccountId },
}

/// A relation of an account group together with its subject.
#[derive(Debug, Clone, Copy, PartialEq, Eq, Hash, Structural)]
pub enum AccountGroupRelationAndSubject {
    Member { subject: AccountGroupMemberSubject, level: u8 },
}

/// How fresh the data a permission check reads must be.
#[derive(Debug, Clone, Copy, PartialEq, Eq, Hash, Structural)]
pub enum Consistency {
    MinimalLatency,
    FullyConsistent,
}

/// The relation that makes `account_id` a direct member of a group.
pub open spec fn direct_membership(account_id: AccountId) -> AccountGroupRelationAndSubject {
    AccountGroupRelationAndSubject::Member {
        subject: AccountGroupMemberSubject::Account { id: account_id },
        level: 0,
    }
}

} // verus!
