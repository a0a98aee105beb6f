//! Verified decision logic of the graph's account and authentication RPC services:
//! procedure identifiers and service metadata, the request routing of the server-side
//! delegates and of the clients, and the state machines that drive each account request
//! through its authorization and store calls.

pub mod ids;
pub mod rpc;
pub mod session;
pub mod authorization;
pub mod account;
pub mod auth;
