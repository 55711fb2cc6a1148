//! Memory of the host.

use vstd::prelude::*;
use crate::host::memory_bytes;
use crate::metrics::owner::{owners_after_pass, MetricRecord};

verus! {

/// Memory of one owner's host, in bytes.
#[derive(Clone, Debug, PartialEq, Eq)]
pub struct MemoryMetrics {
    pub sub_admin_metrics_id: Option<i32>,
    pub staff_metrics_id: Option<i32>,
    pub total_memory: Option<u64>,
    pub used_memory: Option<u64>,
}

impl MetricRecord for MemoryMetrics {
    open spec fn sub_admin_owner(&self) -> Option<i32> {
        self.sub_admin_metrics_id
    }

    open spec fn staff_owner(&self) -> Option<i32> {
        self.staff_metrics_id
    }

    fn owners(&self) -> (pair: (Option<i32>, Option<i32>)) {
        (self.sub_admin_metrics_id, self.staff_metrics_id)
    }
}

/// The record that a pass leaves for `user_id` when the host reports
/// `total` and `used` bytes.
pub open spec fn reconciled_memory(
    stored: Option<MemoryMetrics>,
    user_id: i32,
    total: u64,
    used: u64,
) -> MemoryMetrics {
    let owners = owners_after_pass(stored, user_id);
    MemoryMetrics {
        sub_admin_metrics_id: owners.0,
        staff_metrics_id: owners.1,
        total_memory: Some(total),
        used_memory: Some(used),
    }
}

impl MemoryMetrics {
    /// A record with the given owners and sizes.
    pub fn new(
        sub_admin_metrics_id: Option<i32>,
        staff_metrics_id: Option<i32>,
        total_memory: Option<u64>,
        used_memory: Option<u64>,
    ) -> (metrics: Self)
        ensures
            metrics == (MemoryMetrics {
                sub_admin_metrics_id,
                staff_metrics_id,
                total_memory,
                used_memory,
            }),
    {
        Self { sub_admin_metrics_id, staff_metrics_id, total_memory, used_memory }
    }

    /// Overwrites both sizes and leaves the owners alone.
    pub fn update(&mut self, new_total_memory: Option<u64>, new_used_memory: Option<u64>)
        ensures
            *final(self) == (MemoryMetrics {
                total_memory: new_total_memory,
                used_memory: new_used_memory,
                ..*old(self)
            }),
    {
        self.total_memory = new_total_memory;
        self.used_memory = new_used_memory;
    }
}

/// Samples the host and makes a new record for the given owners.
pub fn gather_memory_metrics(
    sub_admin_metrics_id: Option<i32>,
    staff_metrics_id: Option<i32>,
) -> (metrics: MemoryMetrics)
    ensures
        metrics.sub_admin_metrics_id == sub_admin_metrics_id,
        metrics.staff_metrics_id == staff_metrics_id,
        metrics.total_memory is Some,
        metrics.used_memory is Some,
{
    let memory = memory_bytes();
    MemoryMetrics::new(sub_admin_metrics_id, staff_metrics_id, Some(memory.0), Some(memory.1))
}

/// One pass for `user_id` over an already taken sample: refreshes the stored
/// record, or creates one where none was stored.
pub fn reconcile_memory_metrics(
    stored: Option<MemoryMetrics>,
    user_id: i32,
    total: u64,
    used: u64,
) -> (metrics: MemoryMetrics)
    ensures
        metrics == reconciled_memory(stored, user_id, total, used),
{
    match stored {
        Some(mut record) => {
            record.update(Some(total), Some(used));
            record
        },
        None => MemoryMetrics::new(Some(user_id), None, Some(total), Some(used)),
    }
}

/// One pass for `user_id`: samples the host, then refreshes the stored
/// record or creates one. The caller persists what comes back.
pub fn get_memory_info_handler(stored: Option<MemoryMetrics>, user_id: i32) -> (metrics:
    MemoryMetrics)
    ensures
        exists|total: u64, used: u64|
            metrics == #[trigger] reconciled_memory(stored, user_id, total, used),
{
    let memory = memory_bytes();
    let metrics = reconcile_memory_metrics(stored, user_id, memory.0, memory.1);
    proof {
        assert(metrics == reconciled_memory(stored, user_id, memory.0, memory.1));
    }
    metrics
}

} // verus!
