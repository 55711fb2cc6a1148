//! Disk space of the host, summed over its disks.

use vstd::prelude::*;
use crate::host::disk_spaces;
use crate::metrics::owner::{owners_after_pass, MetricRecord};

verus! {

/// Disk space of one owner's host, in bytes.
#[derive(Clone, Debug, PartialEq, Eq)]
pub struct DiskMetrics {
    pub sub_admin_metrics_id: Option<i32>,
    pub staff_metrics_id: Option<i32>,
    pub total_space: Option<u128>,
    pub available_space: Option<u128>,
}

impl MetricRecord for DiskMetrics {
    open spec fn sub_admin_owner(&self) -> Option<i32> {
        self.sub_admin_metrics_id
    }

    open spec fn staff_owner(&self) -> Option<i32> {
        self.staff_metrics_id
    }

    fn owners(&self) -> (pair: (Option<i32>, Option<i32>)) {
        (self.sub_admin_metrics_id, self.staff_metrics_id)
    }
}

/// The total bytes of all disks.
pub open spec fn total_bytes(spaces: Seq<(u64, u64)>) -> nat
    decreases spaces.len(),
{
    if spaces.len() == 0 {
        0
    } else {
        total_bytes(spaces.drop_last()) + spaces.last().0 as nat
    }
}

/// The free bytes of all disks.
pub open spec fn available_bytes(spaces: Seq<(u64, u64)>) -> nat
    decreases spaces.len(),
{
    if spaces.len() == 0 {
        0
    } else {
        available_bytes(spaces.drop_last()) + spaces.last().1 as nat
    }
}

/// The record that a pass over `spaces` leaves for `user_id`.
pub open spec fn reconciled_disk(
    stored: Option<DiskMetrics>,
    user_id: i32,
    spaces: Seq<(u64, u64)>,
) -> DiskMetrics {
    let owners = owners_after_pass(stored, user_id);
    DiskMetrics {
        sub_admin_metrics_id: owners.0,
        staff_metrics_id: owners.1,
        total_space: Some(total_bytes(spaces) as u128),
        available_space: Some(available_bytes(spaces) as u128),
    }
}

/// Neither sum of `n` disks exceeds `n` times the largest size a disk can
/// report.
pub proof fn lemma_sums_bounded(spaces: Seq<(u64, u64)>)
    ensures
        total_bytes(spaces) <= spaces.len() * u64::MAX,
        available_bytes(spaces) <= spaces.len() * u64::MAX,
    decreases spaces.len(),
{
    if spaces.len() > 0 {
        lemma_sums_bounded(spaces.drop_last());
        assert((spaces.len() - 1) * u64::MAX + u64::MAX == spaces.len() * u64::MAX)
            by (nonlinear_arith);
    }
}

impl DiskMetrics {
    /// A record with the given owners and sizes.
    pub fn new(
        sub_admin_metrics_id: Option<i32>,
        staff_metrics_id: Option<i32>,
        total_space: Option<u128>,
        available_space: Option<u128>,
    ) -> (metrics: Self)
        ensures
            metrics == (DiskMetrics {
                sub_admin_metrics_id,
                staff_metrics_id,
                total_space,
                available_space,
            }),
    {
        Self { sub_admin_metrics_id, staff_metrics_id, total_space, available_space }
    }

    /// Overwrites both sizes and leaves the owners alone.
    pub fn update(&mut self, new_total_space: Option<u128>, new_available_space: Option<u128>)
        ensures
            *final(self) == (DiskMetrics {
                total_space: new_total_space,
                available_space: new_available_space,
                ..*old(self)
            }),
    {
        self.total_space = new_total_space;
        self.available_space = new_available_space;
    }
}

/// Adds up the sizes of all disks. The sums are exact: 128 bits hold the
/// sum of as many 64-bit sizes as a vector can hold.
pub fn sum_disk_spaces(spaces: &Vec<(u64, u64)>) -> (sums: (u128, u128))
    ensures
        sums.0 == total_bytes(spaces@),
        sums.1 == available_bytes(spaces@),
{
    let mut total: u128 = 0;
    let mut available: u128 = 0;
    let mut index: usize = 0;
    while index < spaces.len()
        invariant
            index <= spaces.len(),
            total == total_bytes(spaces@.take(index as int)),
            available == available_bytes(spaces@.take(index as int)),
        decreases spaces.len() - index,
    {
        let pair = spaces[index];
        proof {
            let seen = spaces@.take(index as int);
            let next = spaces@.take(index + 1);
            assert(next.drop_last() == seen);
            assert(next.last() == pair);
            lemma_sums_bounded(next);
            assert(next.len() * u64::MAX <= u128::MAX) by (nonlinear_arith)
                requires
                    next.len() <= usize::MAX,
                    usize::MAX <= u64::MAX,
            ;
        }
        total = total + pair.0 as u128;
        available = available + pair.1 as u128;
        index = index + 1;
    }
    proof {
        assert(spaces@.take(index as int) == spaces@);
    }
    (total, available)
}

/// A new record for the given owners, filled from `spaces`.
pub fn disk_metrics_from(
    sub_admin_metrics_id: Option<i32>,
    staff_metrics_id: Option<i32>,
    spaces: &Vec<(u64, u64)>,
) -> (metrics: DiskMetrics)
    ensures
        metrics == (DiskMetrics {
            sub_admin_metrics_id,
            staff_metrics_id,
            total_space: Some(total_bytes(spaces@) as u128),
            available_space: Some(available_bytes(spaces@) as u128),
        }),
{
    let sums = sum_disk_spaces(spaces);
    DiskMetrics::new(sub_admin_metrics_id, staff_metrics_id, Some(sums.0), Some(sums.1))
}

/// Samples the host and makes a new record for the given owners.
pub fn gather_disk_metrics(
    sub_admin_metrics_id: Option<i32>,
    staff_metrics_id: Option<i32>,
) -> (metrics: DiskMetrics)
    ensures
        exists|spaces: Seq<(u64, u64)>|
            metrics == (DiskMetrics {
                sub_admin_metrics_id,
                staff_metrics_id,
                total_space: Some(total_bytes(spaces) as u128),
                available_space: Some(#[trigger] available_bytes(spaces) as u128),
            }),
{
    let spaces = disk_spaces();
    let metrics = disk_metrics_from(sub_admin_metrics_id, staff_metrics_id, &spaces);
    proof {
        assert(metrics.available_space == Some(available_bytes(spaces@) as u128));
    }
    metrics
}

/// One pass for `user_id` over an already taken sample: refreshes the stored
/// record, or creates one where none was stored.
pub fn reconcile_disk_metrics(
    stored: Option<DiskMetrics>,
    user_id: i32,
    spaces: &Vec<(u64, u64)>,
) -> (metrics: DiskMetrics)
    ensures
        metrics == reconciled_disk(stored, user_id, spaces@),
{
    match stored {
        Some(mut record) => {
            let sums = sum_disk_spaces(spaces);
            record.update(Some(sums.0), Some(sums.1));
            record
        },
        None => disk_metrics_from(Some(user_id), None, spaces),
    }
}

/// One pass for `user_id`: samples the host, then refreshes the stored
/// record or creates one. The caller persists what comes back.
pub fn get_disk_info_handler(stored: Option<DiskMetrics>, user_id: i32) -> (metrics: DiskMetrics)
    ensures
        exists|spaces: Seq<(u64, u64)>|
            metrics == #[trigger] reconciled_disk(stored, user_id, spaces),
{
    let spaces = disk_spaces();
    let metrics = reconcile_disk_metrics(stored, user_id, &spaces);
    proof {
        assert(metrics == reconciled_disk(stored, user_id, spaces@));
    }
    metrics
}

} // verus!
