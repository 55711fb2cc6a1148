//! Operator accounts: provisioning, lookup and login.

pub mod login;
pub mod provisioning;
pub mod users;
