//! A minimal reverse-proxy routing core.
//!
//! Inbound HTTP requests are matched against an ordered table of path-prefix
//! rules; each matched request is rewritten into an outbound request that
//! targets the rule's backend service, either through an absolute base URL or
//! through a named internal binding supplied by the hosting environment.
//! Everything here is pure decision logic: the surrounding process performs
//! the actual transport dispatch and hands results back unchanged.

pub mod config;
pub mod route_table;
pub mod router;
