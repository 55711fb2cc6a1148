//! One running process of the host.

use vstd::prelude::*;
use crate::host::{any_process, ProcessSample};
use crate::metrics::owner::{owners_after_pass, MetricRecord};

verus! {

/// One process of one owner's host. `cpu_usage` holds the bits of a 32-bit
/// float, in percent of processor time; `memory` is in bytes.
#[derive(Clone, Debug, PartialEq, Eq)]
pub struct ProcessMetrics {
    pub sub_admin_metrics_id: Option<i32>,
    pub staff_metrics_id: Option<i32>,
    pub pid: Option<i32>,
    pub name: Option<String>,
    pub exe: Option<String>,
    pub cpu_usage: Option<u32>,
    pub memory: Option<u64>,
}

impl MetricRecord for ProcessMetrics {
    open spec fn sub_admin_owner(&self) -> Option<i32> {
        self.sub_admin_metrics_id
    }

    open spec fn staff_owner(&self) -> Option<i32> {
        self.staff_metrics_id
    }

    fn owners(&self) -> (pair: (Option<i32>, Option<i32>)) {
        (self.sub_admin_metrics_id, self.staff_metrics_id)
    }
}

/// A record with the given owners and the readings of `sample`. The
/// process identifier is cut to 32 signed bits.
pub open spec fn sampled_process(
    sub_admin_metrics_id: Option<i32>,
    staff_metrics_id: Option<i32>,
    sample: ProcessSample,
) -> ProcessMetrics {
    ProcessMetrics {
        sub_admin_metrics_id,
        staff_metrics_id,
        pid: Some(sample.pid as i32),
        name: Some(sample.name),
        exe: sample.exe,
        cpu_usage: Some(sample.cpu_usage),
        memory: Some(sample.memory),
    }
}

/// The record that a pass over `sample` leaves for `user_id`.
pub open spec fn reconciled_process(
    stored: Option<ProcessMetrics>,
    user_id: i32,
    sample: ProcessSample,
) -> ProcessMetrics {
    let owners = owners_after_pass(stored, user_id);
    sampled_process(owners.0, owners.1, sample)
}

impl ProcessMetrics {
    /// A record with the given owners and readings.
    pub fn new(
        sub_admin_metrics_id: Option<i32>,
        staff_metrics_id: Option<i32>,
        pid: Option<i32>,
        name: Option<String>,
        exe: Option<String>,
        cpu_usage: Option<u32>,
        memory: Option<u64>,
    ) -> (metrics: Self)
        ensures
            metrics == (ProcessMetrics {
                sub_admin_metrics_id,
                staff_metrics_id,
                pid,
                name,
                exe,
                cpu_usage,
                memory,
            }),
    {
        Self { sub_admin_metrics_id, staff_metrics_id, pid, name, exe, cpu_usage, memory }
    }

    /// Overwrites the five readings and leaves the owners alone.
    pub fn update(
        &mut self,
        new_pid: Option<i32>,
        new_name: Option<String>,
        new_exe: Option<String>,
        new_cpu_usage: Option<u32>,
        new_memory: Option<u64>,
    )
        ensures
            *final(self) == (ProcessMetrics {
                pid: new_pid,
                name: new_name,
                exe: new_exe,
                cpu_usage: new_cpu_usage,
                memory: new_memory,
                ..*old(self)
            }),
    {
        self.pid = new_pid;
        self.name = new_name;
        self.exe = new_exe;
        self.cpu_usage = new_cpu_usage;
        self.memory = new_memory;
    }
}

/// A new record for the given owners, filled from `sample`.
pub fn process_metrics_from(
    sub_admin_metrics_id: Option<i32>,
    staff_metrics_id: Option<i32>,
    sample: ProcessSample,
) -> (metrics: ProcessMetrics)
    ensures
        metrics == sampled_process(sub_admin_metrics_id, staff_metrics_id, sample),
{
    ProcessMetrics::new(
        sub_admin_metrics_id,
        staff_metrics_id,
        Some(#[verifier::truncate] (sample.pid as i32)),
        Some(sample.name),
        sample.exe,
        Some(sample.cpu_usage),
        Some(sample.memory),
    )
}

/// One pass for `user_id` over an already taken sample: refreshes the
/// stored record, or creates one where none was stored.
pub fn reconcile_process_metrics(
    stored: Option<ProcessMetrics>,
    user_id: i32,
    sample: ProcessSample,
) -> (metrics: ProcessMetrics)
    ensures
        metrics == reconciled_process(stored, user_id, sample),
{
    match stored {
        Some(mut record) => {
            record.update(
                Some(#[verifier::truncate] (sample.pid as i32)),
                Some(sample.name),
                sample.exe,
                Some(sample.cpu_usage),
                Some(sample.memory),
            );
            record
        },
        None => process_metrics_from(Some(user_id), None, sample),
    }
}

/// Samples the host and makes a new record for the given owners; `None`
/// where the host lists no process, and the sample has to be taken again.
pub fn gather_process_metrics(
    sub_admin_metrics_id: Option<i32>,
    staff_metrics_id: Option<i32>,
) -> (metrics: Option<ProcessMetrics>)
    ensures
        metrics matches Some(record) ==> exists|sample: ProcessSample|
            record == #[trigger] sampled_process(sub_admin_metrics_id, staff_metrics_id, sample),
{
    match any_process() {
        Some(sample) => Some(process_metrics_from(sub_admin_metrics_id, staff_metrics_id, sample)),
        None => None,
    }
}

/// One pass for `user_id`: samples the host, then refreshes the stored
/// record or creates one; `None` where the host lists no process. The
/// caller persists what comes back.
pub fn get_process_info_handler(stored: Option<ProcessMetrics>, user_id: i32) -> (metrics: Option<
    ProcessMetrics,
>)
    ensures
        metrics matches Some(record) ==> exists|sample: ProcessSample|
            record == #[trigger] reconciled_process(stored, user_id, sample),
{
    match any_process() {
        Some(sample) => Some(reconcile_process_metrics(stored, user_id, sample)),
        None => None,
    }
}

} // verus!
