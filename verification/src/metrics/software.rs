//! Records sampled from the operating system and its surroundings.

pub mod filesystem;
pub mod ip_location;
pub mod process;
pub mod services;
pub mod uptime;
