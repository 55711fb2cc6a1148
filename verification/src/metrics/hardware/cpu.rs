//! The processor of the host.

use vstd::prelude::*;
use vstd::string::StringExecFns;
use crate::clock::unix_micros;
use crate::host::first_cpu;
use crate::metrics::owner::{owners_after_pass, MetricRecord};
use crate::metrics::text::text_of;

verus! {

/// The processor of one owner's host. `last_refresh` is in microseconds
/// since the Unix epoch.
#[derive(Clone, Debug, PartialEq, Eq)]
pub struct CpuMetrics {
    pub sub_admin_metrics_id: Option<i32>,
    pub staff_metrics_id: Option<i32>,
    pub last_refresh: Option<i64>,
    pub cpu_info: Option<String>,
    pub usage_summary: Option<String>,
}

/// A `CpuMetrics` with its texts as sequences of characters.
pub struct CpuMetricsView {
    pub sub_admin_metrics_id: Option<i32>,
    pub staff_metrics_id: Option<i32>,
    pub last_refresh: Option<i64>,
    pub cpu_info: Option<Seq<char>>,
    pub usage_summary: Option<Seq<char>>,
}

impl View for CpuMetrics {
    type V = CpuMetricsView;

    open spec fn view(&self) -> CpuMetricsView {
        CpuMetricsView {
            sub_admin_metrics_id: self.sub_admin_metrics_id,
            staff_metrics_id: self.staff_metrics_id,
            last_refresh: self.last_refresh,
            cpu_info: text_of(self.cpu_info),
            usage_summary: text_of(self.usage_summary),
        }
    }
}

impl MetricRecord for CpuMetrics {
    open spec fn sub_admin_owner(&self) -> Option<i32> {
        self.sub_admin_metrics_id
    }

    open spec fn staff_owner(&self) -> Option<i32> {
        self.staff_metrics_id
    }

    fn owners(&self) -> (pair: (Option<i32>, Option<i32>)) {
        (self.sub_admin_metrics_id, self.staff_metrics_id)
    }
}

/// How a processor is described in a record.
pub open spec fn cpu_description(name: Seq<char>, vendor_id: Seq<char>, brand: Seq<char>) -> Seq<
    char,
> {
    "Name: "@ + name + ", Vendor ID: "@ + vendor_id + ", Brand: "@ + brand
}

/// The description of the host's first processor, if it has one.
pub open spec fn first_cpu_description(cpu: Option<(String, String, String)>) -> Option<Seq<char>> {
    match cpu {
        Some(parts) => Some(cpu_description(parts.0@, parts.1@, parts.2@)),
        None => None,
    }
}

/// The usage summary of every record.
pub open spec fn usage_summary_text() -> Seq<char> {
    "Average: "@ + "Average CPU usage"@ + ", Max: "@ + "Max CPU usage"@ + ", Min: "@
        + "Min CPU usage"@
}

/// The record that a pass at `now` leaves for `user_id` when the host's
/// first processor is `cpu`.
pub open spec fn reconciled_cpu(
    stored: Option<CpuMetrics>,
    user_id: i32,
    cpu: Option<(String, String, String)>,
    now: i64,
) -> CpuMetricsView {
    let owners = owners_after_pass(stored, user_id);
    CpuMetricsView {
        sub_admin_metrics_id: owners.0,
        staff_metrics_id: owners.1,
        last_refresh: Some(now),
        cpu_info: first_cpu_description(cpu),
        usage_summary: Some(usage_summary_text()),
    }
}

impl CpuMetrics {
    /// A record with the given owners and texts, refreshed at `now`.
    pub fn new_at(
        sub_admin_metrics_id: Option<i32>,
        staff_metrics_id: Option<i32>,
        cpu_info: Option<String>,
        usage_summary: Option<String>,
        now: i64,
    ) -> (metrics: Self)
        ensures
            metrics == (CpuMetrics {
                sub_admin_metrics_id,
                staff_metrics_id,
                last_refresh: Some(now),
                cpu_info,
                usage_summary,
            }),
    {
        Self {
            sub_admin_metrics_id,
            staff_metrics_id,
            last_refresh: Some(now),
            cpu_info,
            usage_summary,
        }
    }

    /// A record with the given owners and texts, stamped with the current
    /// time.
    pub fn new(
        sub_admin_metrics_id: Option<i32>,
        staff_metrics_id: Option<i32>,
        cpu_info: Option<String>,
        usage_summary: Option<String>,
    ) -> (metrics: Self)
        ensures
            metrics.sub_admin_metrics_id == sub_admin_metrics_id,
            metrics.staff_metrics_id == staff_metrics_id,
            metrics.cpu_info == cpu_info,
            metrics.usage_summary == usage_summary,
            metrics.last_refresh is Some,
    {
        Self::new_at(sub_admin_metrics_id, staff_metrics_id, cpu_info, usage_summary, unix_micros())
    }

    /// Overwrites both texts, stamps `now` and leaves the owners alone.
    pub fn update_at(
        &mut self,
        new_cpu_info: Option<String>,
        new_usage_summary: Option<String>,
        now: i64,
    )
        ensures
            *final(self) == (CpuMetrics {
                cpu_info: new_cpu_info,
                usage_summary: new_usage_summary,
                last_refresh: Some(now),
                ..*old(self)
            }),
    {
        self.cpu_info = new_cpu_info;
        self.usage_summary = new_usage_summary;
        self.last_refresh = Some(now);
    }

    /// Overwrites both texts, stamps the current time and leaves the owners
    /// alone.
    pub fn update(&mut self, new_cpu_info: Option<String>, new_usage_summary: Option<String>)
        ensures
            final(self).sub_admin_metrics_id == old(self).sub_admin_metrics_id,
            final(self).staff_metrics_id == old(self).staff_metrics_id,
            final(self).cpu_info == new_cpu_info,
            final(self).usage_summary == new_usage_summary,
            final(self).last_refresh is Some,
    {
        self.update_at(new_cpu_info, new_usage_summary, unix_micros());
    }
}

/// The average usage of an owner's processor, as far as it is kept: a fixed
/// text.
pub fn calculate_average_cpu_usage(_sub_admin_metrics_id: i32) -> (usage: String)
    ensures
        usage@ == "Average CPU usage"@,
{
    String::from_str("Average CPU usage")
}

/// The peak usage of an owner's processor, as far as it is kept: a fixed
/// text.
pub fn calculate_max_cpu_usage(_sub_admin_metrics_id: i32) -> (usage: String)
    ensures
        usage@ == "Max CPU usage"@,
{
    String::from_str("Max CPU usage")
}

/// The lowest usage of an owner's processor, as far as it is kept: a fixed
/// text.
pub fn calculate_min_cpu_usage(_sub_admin_metrics_id: i32) -> (usage: String)
    ensures
        usage@ == "Min CPU usage"@,
{
    String::from_str("Min CPU usage")
}

/// The usage summary that goes into every record.
pub fn usage_summary() -> (summary: String)
    ensures
        summary@ == usage_summary_text(),
{
    let mut summary = String::from_str("Average: ");
    summary.append(calculate_average_cpu_usage(0).as_str());
    summary.append(", Max: ");
    summary.append(calculate_max_cpu_usage(0).as_str());
    summary.append(", Min: ");
    summary.append(calculate_min_cpu_usage(0).as_str());
    summary
}

/// Describes the host's first processor, if it has one.
pub fn describe_cpu(cpu: &Option<(String, String, String)>) -> (info: Option<String>)
    ensures
        text_of(info) == first_cpu_description(*cpu),
{
    match cpu {
        Some(parts) => {
            let mut info = String::from_str("Name: ");
            info.append(parts.0.as_str());
            info.append(", Vendor ID: ");
            info.append(parts.1.as_str());
            info.append(", Brand: ");
            info.append(parts.2.as_str());
            Some(info)
        },
        None => None,
    }
}

/// One pass at `now` for `user_id` over an already taken sample: refreshes
/// the stored record, or creates one where none was stored.
pub fn reconcile_cpu_metrics(
    stored: Option<CpuMetrics>,
    user_id: i32,
    cpu: &Option<(String, String, String)>,
    now: i64,
) -> (metrics: CpuMetrics)
    ensures
        metrics@ == reconciled_cpu(stored, user_id, *cpu, now),
{
    let cpu_info = describe_cpu(cpu);
    match stored {
        Some(mut record) => {
            record.update_at(cpu_info, Some(usage_summary()), now);
            record
        },
        None => CpuMetrics::new_at(Some(user_id), None, cpu_info, Some(usage_summary()), now),
    }
}

/// Samples the host and makes a new record for the given owners.
pub fn gather_cpu_metrics(sub_admin_metrics_id: Option<i32>, staff_metrics_id: Option<i32>) -> (metrics:
    CpuMetrics)
    ensures
        metrics.sub_admin_metrics_id == sub_admin_metrics_id,
        metrics.staff_metrics_id == staff_metrics_id,
        metrics.last_refresh is Some,
        exists|cpu: Option<(String, String, String)>|
            text_of(metrics.cpu_info) == #[trigger] first_cpu_description(cpu),
        text_of(metrics.usage_summary) == Some(usage_summary_text()),
{
    let cpu = first_cpu();
    let metrics = CpuMetrics::new_at(
        sub_admin_metrics_id,
        staff_metrics_id,
        describe_cpu(&cpu),
        Some(usage_summary()),
        unix_micros(),
    );
    proof {
        assert(metrics@.cpu_info == first_cpu_description(cpu));
    }
    metrics
}

/// One pass for `user_id`: samples the host, then refreshes the stored
/// record or creates one. The caller persists what comes back.
pub fn get_cpu_info_handler(stored: Option<CpuMetrics>, user_id: i32) -> (metrics: CpuMetrics)
    ensures
        exists|cpu: Option<(String, String, String)>, now: i64|
            metrics@ == #[trigger] reconciled_cpu(stored, user_id, cpu, now),
{
    let cpu = first_cpu();
    let now = unix_micros();
    let metrics = reconcile_cpu_metrics(stored, user_id, &cpu, now);
    proof {
        assert(metrics@ == reconciled_cpu(stored, user_id, cpu, now));
    }
    metrics
}

} // verus!
