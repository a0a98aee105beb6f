//! What the server keeps about a connection: who is acting on it, and what the
//! current request was addressed to.

use vstd::prelude::*;
use crate::ids::AccountId;
use crate::rpc::RequestInfo;

verus! {

/// The account data held by a session: the authenticated actor, if any.
#[derive(Debug, Clone, Copy, PartialEq, Eq, Hash, Structural)]
pub struct Account {
    pub actor_id: Option<AccountId>,
}

/// A server session as seen while handling one request.
#[derive(Debug, Clone, Copy, PartialEq, Eq, Hash)]
pub struct Session {
    pub account: Account,
    pub request_info: RequestInfo,
}

impl Session {
    pub fn new(account: Account, request_info: RequestInfo) -> (session: Session)
        ensures
            session.account == account,
            session.request_info == request_info,
    {
        Session { account, request_info }
    }

    /// The account data of the session.
    pub fn get(&self) -> (account: &Account)
        ensures
            *account == self.account,
    {
        &self.account
    }

    /// What the current request was addressed to.
    pub fn request_info(&self) -> (info: RequestInfo)
        ensures
            info == self.request_info,
    {
        self.request_info
    }

    /// Replaces the account data of the session.
    pub fn update(&mut self, account: Account)
        ensures
            *final(self) == old(self).with_account(account),
    {
        self.account = account;
    }

    pub open spec fn with_account(self, account: Account) -> Session {
        Session { account, ..self }
    }
}

} // verus!
