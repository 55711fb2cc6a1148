//! Network traffic of the host, summed over its interfaces.

use vstd::prelude::*;
use crate::host::interface_counters;
use crate::metrics::owner::{owners_after_pass, MetricRecord};

verus! {

/// Traffic totals of one owner's host.
#[derive(Clone, Debug, PartialEq, Eq)]
pub struct NetworkMetrics {
    pub sub_admin_metrics_id: Option<i32>,
    pub staff_metrics_id: Option<i32>,
    pub total_received: Option<i32>,
    pub total_transmitted: Option<i32>,
}

impl MetricRecord for NetworkMetrics {
    open spec fn sub_admin_owner(&self) -> Option<i32> {
        self.sub_admin_metrics_id
    }

    open spec fn staff_owner(&self) -> Option<i32> {
        self.staff_metrics_id
    }

    fn owners(&self) -> (pair: (Option<i32>, Option<i32>)) {
        (self.sub_admin_metrics_id, self.staff_metrics_id)
    }
}

/// The received bytes of every interface, each cut to 32 bits and added up
/// with wrap-around.
pub open spec fn received_total(counters: Seq<(u64, u64)>) -> i32
    decreases counters.len(),
{
    if counters.len() == 0 {
        0
    } else {
        received_total(counters.drop_last()).wrapping_add(counters.last().0 as i32)
    }
}

/// The transmitted bytes of every interface, each cut to 32 bits and added up
/// with wrap-around.
pub open spec fn transmitted_total(counters: Seq<(u64, u64)>) -> i32
    decreases counters.len(),
{
    if counters.len() == 0 {
        0
    } else {
        transmitted_total(counters.drop_last()).wrapping_add(counters.last().1 as i32)
    }
}

/// The record that a pass over `counters` leaves for `user_id`: the stored
/// record with both totals overwritten, or a new one owned by `user_id` as a
/// sub-admin.
pub open spec fn reconciled_network(
    stored: Option<NetworkMetrics>,
    user_id: i32,
    counters: Seq<(u64, u64)>,
) -> NetworkMetrics {
    let owners = owners_after_pass(stored, user_id);
    NetworkMetrics {
        sub_admin_metrics_id: owners.0,
        staff_metrics_id: owners.1,
        total_received: Some(received_total(counters)),
        total_transmitted: Some(transmitted_total(counters)),
    }
}

impl NetworkMetrics {
    /// A record with the given owners and totals.
    pub fn new(
        sub_admin_metrics_id: Option<i32>,
        staff_metrics_id: Option<i32>,
        total_received: Option<i32>,
        total_transmitted: Option<i32>,
    ) -> (metrics: Self)
        ensures
            metrics == (NetworkMetrics {
                sub_admin_metrics_id,
                staff_metrics_id,
                total_received,
                total_transmitted,
            }),
    {
        Self { sub_admin_metrics_id, staff_metrics_id, total_received, total_transmitted }
    }

    /// Overwrites both totals and leaves the owners alone.
    pub fn update(&mut self, new_total_received: Option<i32>, new_total_transmitted: Option<i32>)
        ensures
            *final(self) == (NetworkMetrics {
                total_received: new_total_received,
                total_transmitted: new_total_transmitted,
                ..*old(self)
            }),
    {
        self.total_received = new_total_received;
        self.total_transmitted = new_total_transmitted;
    }
}

/// Adds up the traffic of all interfaces.
pub fn sum_interface_counters(counters: &Vec<(u64, u64)>) -> (totals: (i32, i32))
    ensures
        totals.0 == received_total(counters@),
        totals.1 == transmitted_total(counters@),
{
    let mut received: i32 = 0;
    let mut transmitted: i32 = 0;
    let mut index: usize = 0;
    while index < counters.len()
        invariant
            index <= counters.len(),
            received == received_total(counters@.take(index as int)),
            transmitted == transmitted_total(counters@.take(index as int)),
        decreases counters.len() - index,
    {
        let pair = counters[index];
        proof {
            let next = counters@.take(index + 1);
            assert(next.drop_last() == counters@.take(index as int));
            assert(next.last() == pair);
        }
        received = received.wrapping_add(#[verifier::truncate] (pair.0 as i32));
        transmitted = transmitted.wrapping_add(#[verifier::truncate] (pair.1 as i32));
        index = index + 1;
    }
    proof {
        assert(counters@.take(index as int) == counters@);
    }
    (received, transmitted)
}

/// A new record for the given owners, filled from `counters`.
pub fn network_metrics_from(
    sub_admin_metrics_id: Option<i32>,
    staff_metrics_id: Option<i32>,
    counters: &Vec<(u64, u64)>,
) -> (metrics: NetworkMetrics)
    ensures
        metrics == (NetworkMetrics {
            sub_admin_metrics_id,
            staff_metrics_id,
            total_received: Some(received_total(counters@)),
            total_transmitted: Some(transmitted_total(counters@)),
        }),
{
    let totals = sum_interface_counters(counters);
    NetworkMetrics::new(sub_admin_metrics_id, staff_metrics_id, Some(totals.0), Some(totals.1))
}

/// Samples the host and makes a new record for the given owners.
pub fn gather_network_metrics(
    sub_admin_metrics_id: Option<i32>,
    staff_metrics_id: Option<i32>,
) -> (metrics: NetworkMetrics)
    ensures
        exists|counters: Seq<(u64, u64)>|
            metrics == (NetworkMetrics {
                sub_admin_metrics_id,
                staff_metrics_id,
                total_received: Some(received_total(counters)),
                total_transmitted: Some(#[trigger] transmitted_total(counters)),
            }),
{
    let counters = interface_counters();
    let metrics = network_metrics_from(sub_admin_metrics_id, staff_metrics_id, &counters);
    proof {
        assert(metrics.total_transmitted == Some(transmitted_total(counters@)));
    }
    metrics
}

/// One pass for `user_id` over an already taken sample: refreshes the stored
/// record, or creates one where none was stored.
pub fn reconcile_network_metrics(
    stored: Option<NetworkMetrics>,
    user_id: i32,
    counters: &Vec<(u64, u64)>,
) -> (metrics: NetworkMetrics)
    ensures
        metrics == reconciled_network(stored, user_id, counters@),
{
    match stored {
        Some(mut record) => {
            let totals = sum_interface_counters(counters);
            record.update(Some(totals.0), Some(totals.1));
            record
        },
        None => network_metrics_from(Some(user_id), None, counters),
    }
}

/// One pass for `user_id`: samples the host, then refreshes the stored record
/// or creates one. The caller persists what comes back.
pub fn get_network_info_handler(stored: Option<NetworkMetrics>, user_id: i32) -> (metrics:
    NetworkMetrics)
    ensures
        exists|counters: Seq<(u64, u64)>|
            metrics == #[trigger] reconciled_network(stored, user_id, counters),
{
    let counters = interface_counters();
    let metrics = reconcile_network_metrics(stored, user_id, &counters);
    proof {
        assert(metrics == reconciled_network(stored, user_id, counters@));
    }
    metrics
}

} // verus!
