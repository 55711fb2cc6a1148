//! Identity and telemetry reconciliation for an IT-asset management service.
//!
//! The crate holds the decisions of the service: how credentials are hashed
//! and checked, which account an email resolves to, how long a token lives,
//! and how a stored telemetry record is created or refreshed from a fresh host
//! sample. Storage, HTTP and process spawning stay with the caller, which
//! hands in plain values and gets plain values back.

pub mod auth;
pub mod clock;
pub mod crypto;
pub mod error;
pub mod host;
pub mod metrics;
pub mod parse;
pub mod random;
pub mod response;
pub mod user;
