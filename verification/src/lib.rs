//! Core of a small MMO server cluster: the client packet protocol, the
//! character lobby of a session and the lifecycle of the join server.
//!
//! Everything here is pure decision logic. Sockets, timers and the account
//! and character services live with the caller, which performs the actions
//! this crate hands out and reports back what happened.

pub mod bytes;
pub mod join_server;
pub mod lobby;
pub mod protocol;
