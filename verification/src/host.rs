//! Readings of the live host, taken through `sysinfo`.
//!
//! Each function here hands back what the machine reports at the moment of
//! the call. Nothing is promised of the values: two calls may differ.

use vstd::prelude::*;
use sysinfo::{Disks, Networks, System};

verus! {

/// `System::name()`: the name of the operating system, if the host tells.
#[verifier::external_body]
pub(crate) fn os_name() -> (name: Option<String>) {
    System::name()
}

/// `System::host_name()`: the host's name, if the host tells.
#[verifier::external_body]
pub(crate) fn host_name() -> (name: Option<String>) {
    System::host_name()
}

/// `System::os_version()`: the version of the operating system, if the host
/// tells.
#[verifier::external_body]
pub(crate) fn os_version() -> (version: Option<String>) {
    System::os_version()
}

/// `System::kernel_version()`: the version of the kernel, if the host tells.
#[verifier::external_body]
pub(crate) fn kernel_version() -> (version: Option<String>) {
    System::kernel_version()
}

/// `System::uptime()`: seconds since the host was started.
#[verifier::external_body]
pub(crate) fn uptime_seconds() -> (seconds: u64) {
    System::uptime()
}

/// Name, vendor and brand of the first processor that `System::cpus` lists
/// after `System::new_all` and `refresh_cpu`; `None` where it lists none.
#[verifier::external_body]
pub(crate) fn first_cpu() -> (cpu: Option<(String, String, String)>) {
    let mut sys = System::new_all();
    sys.refresh_cpu();
    sys.cpus().first().map(
        |cpu| (cpu.name().to_string(), cpu.vendor_id().to_string(), cpu.brand().to_string()),
    )
}

/// `System::total_memory` and `System::used_memory` after `System::new_all`
/// and `refresh_all`: total and used memory in bytes.
#[verifier::external_body]
pub(crate) fn memory_bytes() -> (memory: (u64, u64)) {
    let mut sys = System::new_all();
    sys.refresh_all();
    (sys.total_memory(), sys.used_memory())
}

/// `Disk::total_space` and `Disk::available_space` of every disk that
/// `Disks::new_with_refreshed_list` finds: total and free bytes, disk by
/// disk.
#[verifier::external_body]
pub(crate) fn disk_spaces() -> (spaces: Vec<(u64, u64)>) {
    let disks = Disks::new_with_refreshed_list();
    disks.list().iter().map(|disk| (disk.total_space(), disk.available_space())).collect()
}

/// Bytes received and transmitted on each network interface since the
/// interface list was made: `Networks::new_with_refreshed_list`, then
/// `NetworkData::received` and `NetworkData::transmitted` of every
/// interface. The order of the interfaces is not fixed.
#[verifier::external_body]
pub(crate) fn interface_counters() -> (counters: Vec<(u64, u64)>) {
    let networks = Networks::new_with_refreshed_list();
    networks.list().values().map(|data| (data.received(), data.transmitted())).collect()
}

/// One running process as the host reports it.
#[derive(Clone, Debug, PartialEq, Eq)]
pub struct ProcessSample {
    /// The process identifier.
    pub pid: u32,
    /// The name of the process.
    pub name: String,
    /// The path of the executable, where it is known.
    pub exe: Option<String>,
    /// The share of processor time in percent, as the bits of a 32-bit
    /// float.
    pub cpu_usage: u32,
    /// Memory in use, in bytes.
    pub memory: u64,
}

/// The process that `System::processes` hands out first after
/// `System::new_all` and `refresh_all`, with its `Pid`, `Process::name`,
/// `exe`, `cpu_usage` and `memory`; `None` where the map is empty. Which
/// process comes first is not fixed.
#[verifier::external_body]
pub(crate) fn any_process() -> (process: Option<ProcessSample>) {
    let mut sys = System::new_all();
    sys.refresh_all();
    sys.processes().iter().next().map(
        |(pid, process)|
            ProcessSample {
                pid: pid.as_u32(),
                name: process.name().to_string(),
                exe: process.exe().map(|path| path.to_string_lossy().to_string()),
                cpu_usage: process.cpu_usage().to_bits(),
                memory: process.memory(),
            },
    )
}

} // verus!
