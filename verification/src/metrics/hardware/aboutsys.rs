//! What the host says of itself: names and versions.

use vstd::prelude::*;
use crate::clock::unix_micros;
use crate::host::{host_name, kernel_version, os_name, os_version};
use crate::metrics::owner::{owners_after_pass, MetricRecord};
use crate::metrics::text::{reading_or_empty, reading_text, same_text, text_of};

verus! {

/// Names and versions of one owner's host. Times are microseconds since the
/// Unix epoch.
#[derive(Clone, Debug, PartialEq, Eq)]
pub struct SystemInfo {
    pub sub_admin_metrics_id: Option<i32>,
    pub staff_metrics_id: Option<i32>,
    pub name: Option<String>,
    pub hostname: Option<String>,
    pub os_version: Option<String>,
    pub kernel_version: Option<String>,
    pub created_at: Option<i64>,
    pub updated_at: Option<i64>,
}

/// A `SystemInfo` with its texts as sequences of characters.
pub struct SystemInfoView {
    pub sub_admin_metrics_id: Option<i32>,
    pub staff_metrics_id: Option<i32>,
    pub name: Option<Seq<char>>,
    pub hostname: Option<Seq<char>>,
    pub os_version: Option<Seq<char>>,
    pub kernel_version: Option<Seq<char>>,
    pub created_at: Option<i64>,
    pub updated_at: Option<i64>,
}

impl View for SystemInfo {
    type V = SystemInfoView;

    open spec fn view(&self) -> SystemInfoView {
        SystemInfoView {
            sub_admin_metrics_id: self.sub_admin_metrics_id,
            staff_metrics_id: self.staff_metrics_id,
            name: text_of(self.name),
            hostname: text_of(self.hostname),
            os_version: text_of(self.os_version),
            kernel_version: text_of(self.kernel_version),
            created_at: self.created_at,
            updated_at: self.updated_at,
        }
    }
}

impl MetricRecord for SystemInfo {
    open spec fn sub_admin_owner(&self) -> Option<i32> {
        self.sub_admin_metrics_id
    }

    open spec fn staff_owner(&self) -> Option<i32> {
        self.staff_metrics_id
    }

    fn owners(&self) -> (pair: (Option<i32>, Option<i32>)) {
        (self.sub_admin_metrics_id, self.staff_metrics_id)
    }
}

/// The four readings of the host, as the host gave them.
#[derive(Clone, Debug, PartialEq, Eq)]
pub struct SystemSample {
    pub name: Option<String>,
    pub hostname: Option<String>,
    pub os_version: Option<String>,
    pub kernel_version: Option<String>,
}

/// A new record: the readings as given, created and updated at `now`.
pub open spec fn created_system_info(
    sub_admin_metrics_id: Option<i32>,
    staff_metrics_id: Option<i32>,
    name: Option<Seq<char>>,
    hostname: Option<Seq<char>>,
    os_version: Option<Seq<char>>,
    kernel_version: Option<Seq<char>>,
    now: i64,
) -> SystemInfoView {
    SystemInfoView {
        sub_admin_metrics_id,
        staff_metrics_id,
        name,
        hostname,
        os_version,
        kernel_version,
        created_at: Some(now),
        updated_at: Some(now),
    }
}

/// A record after an update: untouched where all four readings are the
/// stored ones, else with the four readings and `now` as the update time.
pub open spec fn updated_system_info(
    stored: SystemInfoView,
    name: Option<Seq<char>>,
    hostname: Option<Seq<char>>,
    os_version: Option<Seq<char>>,
    kernel_version: Option<Seq<char>>,
    now: i64,
) -> SystemInfoView {
    if name != stored.name || hostname != stored.hostname || os_version != stored.os_version
        || kernel_version != stored.kernel_version {
        SystemInfoView {
            name,
            hostname,
            os_version,
            kernel_version,
            updated_at: Some(now),
            ..stored
        }
    } else {
        stored
    }
}

/// The record that a pass at `now` leaves for `user_id` when the host gives
/// `sample`. A reading that the host withholds counts as empty text.
pub open spec fn reconciled_system_info(
    stored: Option<SystemInfo>,
    user_id: i32,
    sample: SystemSample,
    now: i64,
) -> SystemInfoView {
    let name = Some(reading_text(sample.name));
    let hostname = Some(reading_text(sample.hostname));
    let os_version = Some(reading_text(sample.os_version));
    let kernel_version = Some(reading_text(sample.kernel_version));
    match stored {
        Some(record) => updated_system_info(
            record@,
            name,
            hostname,
            os_version,
            kernel_version,
            now,
        ),
        None => created_system_info(
            Some(user_id),
            None,
            name,
            hostname,
            os_version,
            kernel_version,
            now,
        ),
    }
}

impl SystemInfo {
    /// A record with the given owners and readings, created and updated at
    /// `now`.
    pub fn new_at(
        sub_admin_metrics_id: Option<i32>,
        staff_metrics_id: Option<i32>,
        name: Option<String>,
        hostname: Option<String>,
        os_version: Option<String>,
        kernel_version: Option<String>,
        now: i64,
    ) -> (info: Self)
        ensures
            info == (SystemInfo {
                sub_admin_metrics_id,
                staff_metrics_id,
                name,
                hostname,
                os_version,
                kernel_version,
                created_at: Some(now),
                updated_at: Some(now),
            }),
    {
        Self {
            sub_admin_metrics_id,
            staff_metrics_id,
            name,
            hostname,
            os_version,
            kernel_version,
            created_at: Some(now),
            updated_at: Some(now),
        }
    }

    /// A record with the given owners and readings, stamped with the
    /// current time as both creation and update time.
    pub fn new(
        sub_admin_metrics_id: Option<i32>,
        staff_metrics_id: Option<i32>,
        name: Option<String>,
        hostname: Option<String>,
        os_version: Option<String>,
        kernel_version: Option<String>,
    ) -> (info: Self)
        ensures
            info.sub_admin_metrics_id == sub_admin_metrics_id,
            info.staff_metrics_id == staff_metrics_id,
            info.name == name,
            info.hostname == hostname,
            info.os_version == os_version,
            info.kernel_version == kernel_version,
            info.created_at is Some,
            info.updated_at == info.created_at,
    {
        Self::new_at(
            sub_admin_metrics_id,
            staff_metrics_id,
            name,
            hostname,
            os_version,
            kernel_version,
            unix_micros(),
        )
    }

    /// Takes the four readings if any of them differs from what is stored,
    /// and then stamps `now` as the update time; else changes nothing.
    pub fn update_at(
        &mut self,
        new_name: Option<String>,
        new_hostname: Option<String>,
        new_os_version: Option<String>,
        new_kernel_version: Option<String>,
        now: i64,
    )
        ensures
            final(self)@ == updated_system_info(
                old(self)@,
                text_of(new_name),
                text_of(new_hostname),
                text_of(new_os_version),
                text_of(new_kernel_version),
                now,
            ),
    {
        if !same_text(&new_name, &self.name) || !same_text(&new_hostname, &self.hostname)
            || !same_text(&new_os_version, &self.os_version) || !same_text(
            &new_kernel_version,
            &self.kernel_version,
        ) {
            self.name = new_name;
            self.hostname = new_hostname;
            self.os_version = new_os_version;
            self.kernel_version = new_kernel_version;
            self.updated_at = Some(now);
        }
    }

    /// Takes the four readings if any of them differs from what is stored,
    /// and then stamps the current time as the update time; else changes
    /// nothing.
    pub fn update(
        &mut self,
        new_name: Option<String>,
        new_hostname: Option<String>,
        new_os_version: Option<String>,
        new_kernel_version: Option<String>,
    )
        ensures
            exists|now: i64|
                final(self)@ == updated_system_info(
                    old(self)@,
                    text_of(new_name),
                    text_of(new_hostname),
                    text_of(new_os_version),
                    text_of(new_kernel_version),
                    now,
                ),
    {
        self.update_at(new_name, new_hostname, new_os_version, new_kernel_version, unix_micros());
    }
}

/// Reads the four names and versions from the host.
pub fn sample_system() -> (sample: SystemSample) {
    SystemSample {
        name: os_name(),
        hostname: host_name(),
        os_version: os_version(),
        kernel_version: kernel_version(),
    }
}

/// One pass at `now` for `user_id` over an already taken sample: refreshes
/// the stored record, or creates one where none was stored.
pub fn reconcile_system_info(
    stored: Option<SystemInfo>,
    user_id: i32,
    sample: SystemSample,
    now: i64,
) -> (info: SystemInfo)
    ensures
        info@ == reconciled_system_info(stored, user_id, sample, now),
        (info.sub_admin_metrics_id, info.staff_metrics_id) == owners_after_pass(stored, user_id),
{
    let name = Some(reading_or_empty(sample.name));
    let hostname = Some(reading_or_empty(sample.hostname));
    let os_version = Some(reading_or_empty(sample.os_version));
    let kernel_version = Some(reading_or_empty(sample.kernel_version));
    match stored {
        Some(mut record) => {
            record.update_at(name, hostname, os_version, kernel_version, now);
            record
        },
        None => SystemInfo::new_at(
            Some(user_id),
            None,
            name,
            hostname,
            os_version,
            kernel_version,
            now,
        ),
    }
}

/// Samples the host and makes a new record for the given owners. Every
/// reading is present; one that the host withholds is empty.
pub fn gather_system_info(sub_admin_metrics_id: Option<i32>, staff_metrics_id: Option<i32>) -> (info:
    SystemInfo)
    ensures
        exists|sample: SystemSample, now: i64|
            info@ == #[trigger] created_system_info(
                sub_admin_metrics_id,
                staff_metrics_id,
                Some(reading_text(sample.name)),
                Some(reading_text(sample.hostname)),
                Some(reading_text(sample.os_version)),
                Some(reading_text(sample.kernel_version)),
                now,
            ),
{
    let sample = sample_system();
    let now = unix_micros();
    let info = SystemInfo::new_at(
        sub_admin_metrics_id,
        staff_metrics_id,
        Some(reading_or_empty(sample.name)),
        Some(reading_or_empty(sample.hostname)),
        Some(reading_or_empty(sample.os_version)),
        Some(reading_or_empty(sample.kernel_version)),
        now,
    );
    proof {
        assert(info@ == created_system_info(
            sub_admin_metrics_id,
            staff_metrics_id,
            Some(reading_text(sample.name)),
            Some(reading_text(sample.hostname)),
            Some(reading_text(sample.os_version)),
            Some(reading_text(sample.kernel_version)),
            now,
        ));
    }
    info
}

/// One pass for `user_id`: samples the host, then refreshes the stored
/// record or creates one. The caller persists what comes back.
pub fn get_system_info_handler(stored: Option<SystemInfo>, user_id: i32) -> (info: SystemInfo)
    ensures
        exists|sample: SystemSample, now: i64|
            info@ == #[trigger] reconciled_system_info(stored, user_id, sample, now),
        (info.sub_admin_metrics_id, info.staff_metrics_id) == owners_after_pass(stored, user_id),
{
    let sample = sample_system();
    let now = unix_micros();
    let info = reconcile_system_info(stored, user_id, sample, now);
    proof {
        assert(info@ == reconciled_system_info(stored, user_id, sample, now));
    }
    info
}

} // verus!
