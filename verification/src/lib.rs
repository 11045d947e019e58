//! Karon: attendance middleware between NFC/Kerberos card scanners, the
//! chapter's SSO and VoteIT.
//!
//! This crate holds the decision logic of the service (permissions, request
//! parsing, retry policy, error reporting, event routing) with its
//! contracts; the HTTP server, database and network plumbing live in the
//! accompanying application.

pub mod auth;
pub mod client;
pub mod cookies;
pub mod db;
pub mod ids;
pub mod oidc;
pub mod server;
pub mod sso;
pub mod text;
pub mod voteit;
