//! How long the host has been up, and how much of it counts as downtime.
//!
//! Times of day are microseconds since the Unix epoch; uptime and downtime
//! are whole seconds.

use vstd::prelude::*;
use crate::clock::unix_micros;
use crate::host::uptime_seconds;
use crate::metrics::owner::{owners_after_pass, MetricRecord};

verus! {

/// Seconds in the hour that a sample takes off the uptime to get the
/// downtime.
pub const DOWNTIME_OFFSET_SECS: u64 = 3600;

/// Uptime and downtime of one owner's host, in seconds.
#[derive(Clone, Copy, Debug, PartialEq, Eq)]
pub struct UptimeMetrics {
    pub sub_admin_metrics_id: Option<i32>,
    pub staff_metrics_id: Option<i32>,
    pub uptime: Option<u64>,
    pub downtime: Option<i64>,
    pub created_at: Option<i64>,
    pub updated_at: Option<i64>,
}

impl MetricRecord for UptimeMetrics {
    open spec fn sub_admin_owner(&self) -> Option<i32> {
        self.sub_admin_metrics_id
    }

    open spec fn staff_owner(&self) -> Option<i32> {
        self.staff_metrics_id
    }

    fn owners(&self) -> (pair: (Option<i32>, Option<i32>)) {
        (self.sub_admin_metrics_id, self.staff_metrics_id)
    }
}

/// `value`, or the nearest bound of `i64` where it lies outside.
pub open spec fn clamped(value: int) -> i64 {
    if value > i64::MAX {
        i64::MAX
    } else if value < i64::MIN {
        i64::MIN
    } else {
        value as i64
    }
}

/// The downtime that goes with a sampled uptime: one hour less.
pub open spec fn sampled_downtime(uptime: u64) -> i64 {
    clamped(uptime - DOWNTIME_OFFSET_SECS)
}

/// The downtime after the uptime went from `stored_uptime` to `new_uptime`:
/// where it grew, the growth is added to the stored downtime, which counts
/// as zero where none is stored.
pub open spec fn accrued_downtime(
    stored_downtime: Option<i64>,
    stored_uptime: Option<u64>,
    new_uptime: u64,
) -> Option<i64> {
    match stored_uptime {
        Some(uptime) if new_uptime > uptime => Some(
            clamped(
                match stored_downtime {
                    Some(downtime) => downtime as int,
                    None => 0,
                } + new_uptime - uptime,
            ),
        ),
        _ => stored_downtime,
    }
}

/// A record after an update at `now`.
pub open spec fn updated_uptime(
    stored: UptimeMetrics,
    new_uptime: Option<u64>,
    new_downtime: Option<i64>,
    now: i64,
) -> UptimeMetrics {
    UptimeMetrics {
        uptime: match new_uptime {
            Some(uptime) => Some(uptime),
            None => stored.uptime,
        },
        downtime: match new_downtime {
            Some(downtime) => Some(downtime),
            None => match new_uptime {
                Some(uptime) => accrued_downtime(stored.downtime, stored.uptime, uptime),
                None => stored.downtime,
            },
        },
        updated_at: Some(now),
        ..stored
    }
}

/// The record that a pass at `now` leaves for `user_id` when the host has
/// been up for `uptime` seconds. A stored record takes the sampled uptime,
/// and where that exceeds the stored one its downtime grows by the
/// difference. A new record starts with the downtime that goes with the
/// sample.
pub open spec fn reconciled_uptime(
    stored: Option<UptimeMetrics>,
    user_id: i32,
    uptime: u64,
    now: i64,
) -> UptimeMetrics {
    match stored {
        Some(record) => updated_uptime(record, Some(uptime), None, now),
        None => UptimeMetrics {
            sub_admin_metrics_id: Some(user_id),
            staff_metrics_id: None,
            uptime: Some(uptime),
            downtime: Some(sampled_downtime(uptime)),
            created_at: Some(now),
            updated_at: Some(now),
        },
    }
}

/// Cuts a wide value to 64 bits at the nearest bound.
fn clamp(value: i128) -> (cut: i64)
    ensures
        cut == clamped(value as int),
{
    if value > i64::MAX as i128 {
        i64::MAX
    } else if value < i64::MIN as i128 {
        i64::MIN
    } else {
        value as i64
    }
}

/// The downtime that goes with a sampled uptime: one hour less.
pub fn downtime_of_sample(uptime: u64) -> (downtime: i64)
    ensures
        downtime == sampled_downtime(uptime),
{
    clamp(uptime as i128 - DOWNTIME_OFFSET_SECS as i128)
}

impl UptimeMetrics {
    /// A record with the given owners and times, created and updated at
    /// `now`.
    pub fn new_at(
        sub_admin_metrics_id: Option<i32>,
        staff_metrics_id: Option<i32>,
        uptime: Option<u64>,
        downtime: Option<i64>,
        now: i64,
    ) -> (metrics: Self)
        ensures
            metrics == (UptimeMetrics {
                sub_admin_metrics_id,
                staff_metrics_id,
                uptime,
                downtime,
                created_at: Some(now),
                updated_at: Some(now),
            }),
    {
        Self {
            sub_admin_metrics_id,
            staff_metrics_id,
            uptime,
            downtime,
            created_at: Some(now),
            updated_at: Some(now),
        }
    }

    /// A record with the given owners and times, stamped with the current
    /// time as both creation and update time.
    pub fn new(
        sub_admin_metrics_id: Option<i32>,
        staff_metrics_id: Option<i32>,
        uptime: Option<u64>,
        downtime: Option<i64>,
    ) -> (metrics: Self)
        ensures
            metrics.sub_admin_metrics_id == sub_admin_metrics_id,
            metrics.staff_metrics_id == staff_metrics_id,
            metrics.uptime == uptime,
            metrics.downtime == downtime,
            metrics.created_at is Some,
            metrics.updated_at == metrics.created_at,
    {
        Self::new_at(sub_admin_metrics_id, staff_metrics_id, uptime, downtime, unix_micros())
    }

    /// Takes a new uptime and a new downtime, each where one is given. A
    /// new uptime above the stored one adds the growth to the downtime; a
    /// new downtime, where given, overrides that. `now` becomes the update
    /// time.
    pub fn update_at(&mut self, new_uptime: Option<u64>, new_downtime: Option<i64>, now: i64)
        ensures
            *final(self) == updated_uptime(*old(self), new_uptime, new_downtime, now),
    {
        if let Some(new_uptime) = new_uptime {
            if let Some(uptime) = self.uptime {
                if new_uptime > uptime {
                    let stored: i64 = match self.downtime {
                        Some(downtime) => downtime,
                        None => 0,
                    };
                    self.downtime = Some(
                        clamp(stored as i128 + new_uptime as i128 - uptime as i128),
                    );
                }
            }
            self.uptime = Some(new_uptime);
        }
        if let Some(new_downtime) = new_downtime {
            self.downtime = Some(new_downtime);
        }
        self.updated_at = Some(now);
    }

    /// As `update_at`, with the current time as the update time.
    pub fn update(&mut self, new_uptime: Option<u64>, new_downtime: Option<i64>)
        ensures
            exists|now: i64|
                *final(self) == updated_uptime(*old(self), new_uptime, new_downtime, now),
    {
        self.update_at(new_uptime, new_downtime, unix_micros());
    }
}

/// One pass at `now` for `user_id` over an already taken sample: refreshes
/// the stored record, or creates one where none was stored.
pub fn reconcile_uptime_metrics(
    stored: Option<UptimeMetrics>,
    user_id: i32,
    uptime: u64,
    now: i64,
) -> (metrics: UptimeMetrics)
    ensures
        metrics == reconciled_uptime(stored, user_id, uptime, now),
        (metrics.sub_admin_metrics_id, metrics.staff_metrics_id) == owners_after_pass(
            stored,
            user_id,
        ),
{
    match stored {
        Some(mut record) => {
            record.update_at(Some(uptime), None, now);
            record
        },
        None => UptimeMetrics::new_at(
            Some(user_id),
            None,
            Some(uptime),
            Some(downtime_of_sample(uptime)),
            now,
        ),
    }
}

/// Samples the host and makes a new record for the given owners.
pub fn gather_uptime_metrics(
    sub_admin_metrics_id: Option<i32>,
    staff_metrics_id: Option<i32>,
) -> (metrics: UptimeMetrics)
    ensures
        metrics.sub_admin_metrics_id == sub_admin_metrics_id,
        metrics.staff_metrics_id == staff_metrics_id,
        metrics.uptime matches Some(uptime) && metrics.downtime == Some(sampled_downtime(uptime)),
        metrics.created_at is Some,
        metrics.updated_at == metrics.created_at,
{
    let uptime = uptime_seconds();
    UptimeMetrics::new(
        sub_admin_metrics_id,
        staff_metrics_id,
        Some(uptime),
        Some(downtime_of_sample(uptime)),
    )
}

/// One pass for `user_id`: samples the host, then refreshes the stored
/// record or creates one. The caller persists what comes back.
pub fn get_uptime_info_handler(stored: Option<UptimeMetrics>, user_id: i32) -> (metrics:
    UptimeMetrics)
    ensures
        exists|uptime: u64, now: i64|
            metrics == #[trigger] reconciled_uptime(stored, user_id, uptime, now),
        (metrics.sub_admin_metrics_id, metrics.staff_metrics_id) == owners_after_pass(
            stored,
            user_id,
        ),
{
    let uptime = uptime_seconds();
    let now = unix_micros();
    let metrics = reconcile_uptime_metrics(stored, user_id, uptime, now);
    proof {
        assert(metrics == reconciled_uptime(stored, user_id, uptime, now));
    }
    metrics
}

/// A pass over a stored record whose uptime the sample exceeds stores the
/// sampled uptime and raises the downtime by the difference, as long as the
/// sum fits: stored 2 hours and sampled 5 hours give 5 hours of uptime and
/// 3 hours more of downtime.
pub proof fn law_pass_accrues_downtime(
    stored: UptimeMetrics,
    stored_uptime: u64,
    user_id: i32,
    sampled: u64,
    now: i64,
)
    requires
        stored.uptime == Some(stored_uptime),
        sampled > stored_uptime,
        stored.downtime.unwrap_or(0) + (sampled - stored_uptime) <= i64::MAX,
    ensures
        reconciled_uptime(Some(stored), user_id, sampled, now).uptime == Some(sampled),
        reconciled_uptime(Some(stored), user_id, sampled, now).downtime matches Some(downtime)
            && downtime == stored.downtime.unwrap_or(0) + (sampled - stored_uptime),
{
}

/// When the sampled uptime exceeds the stored one and no downtime comes
/// with the sample, an update stores the new uptime and raises the downtime
/// by the difference, as long as the sum fits.
pub proof fn law_growth_accrues_downtime(
    stored: UptimeMetrics,
    stored_uptime: u64,
    new_uptime: u64,
    now: i64,
)
    requires
        stored.uptime == Some(stored_uptime),
        new_uptime > stored_uptime,
        stored.downtime.unwrap_or(0) + (new_uptime - stored_uptime) <= i64::MAX,
    ensures
        updated_uptime(stored, Some(new_uptime), None, now).uptime == Some(new_uptime),
        updated_uptime(stored, Some(new_uptime), None, now).downtime matches Some(downtime)
            && downtime == stored.downtime.unwrap_or(0) + (new_uptime - stored_uptime),
{
}

/// An uptime that did not grow leaves the downtime as it was.
pub proof fn law_no_growth_keeps_downtime(stored: UptimeMetrics, new_uptime: u64, now: i64)
    requires
        stored.uptime matches Some(uptime) ==> new_uptime <= uptime,
    ensures
        updated_uptime(stored, Some(new_uptime), None, now).downtime == stored.downtime,
{
}

} // verus!
