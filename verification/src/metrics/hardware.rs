//! Records sampled from the machine's hardware.

pub mod aboutsys;
pub mod cpu;
pub mod disk;
pub mod memory;
pub mod network;
