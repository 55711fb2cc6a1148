//! Telemetry records, one family per domain, and the rules they share.

pub mod domain;
pub mod hardware;
pub mod owner;
pub mod scheduler;
pub mod software;
pub mod store;
pub mod text;
