//! The state of the host's first volume, as the volume tool prints it.
//!
//! Of the volumes of a host one is sampled, `C:`. A pass takes one sample
//! and makes one write, on a hit as on a miss; no second volume is walked.

use vstd::prelude::*;
use vstd::string::StringExecFns;
use crate::metrics::owner::{owners_after_pass, MetricRecord};
use crate::metrics::text::text_of;

verus! {

/// The state of a volume of one owner's host.
#[derive(Clone, Debug, PartialEq, Eq)]
pub struct FileSystemMetrics {
    pub sub_admin_metrics_id: Option<i32>,
    pub staff_metrics_id: Option<i32>,
    pub filesystem: Option<String>,
    pub status: Option<String>,
}

/// A `FileSystemMetrics` with its texts as sequences of characters.
pub struct FileSystemMetricsView {
    pub sub_admin_metrics_id: Option<i32>,
    pub staff_metrics_id: Option<i32>,
    pub filesystem: Option<Seq<char>>,
    pub status: Option<Seq<char>>,
}

impl View for FileSystemMetrics {
    type V = FileSystemMetricsView;

    open spec fn view(&self) -> FileSystemMetricsView {
        FileSystemMetricsView {
            sub_admin_metrics_id: self.sub_admin_metrics_id,
            staff_metrics_id: self.staff_metrics_id,
            filesystem: text_of(self.filesystem),
            status: text_of(self.status),
        }
    }
}

impl MetricRecord for FileSystemMetrics {
    open spec fn sub_admin_owner(&self) -> Option<i32> {
        self.sub_admin_metrics_id
    }

    open spec fn staff_owner(&self) -> Option<i32> {
        self.staff_metrics_id
    }

    fn owners(&self) -> (pair: (Option<i32>, Option<i32>)) {
        (self.sub_admin_metrics_id, self.staff_metrics_id)
    }
}

/// The volume whose state is sampled.
pub open spec fn sampled_volume() -> Seq<char> {
    "C:"@
}

/// The record that a pass leaves for `user_id` when the volume tool printed
/// `status` for the sampled volume.
pub open spec fn reconciled_filesystem(
    stored: Option<FileSystemMetrics>,
    user_id: i32,
    status: Seq<char>,
) -> FileSystemMetricsView {
    let owners = owners_after_pass(stored, user_id);
    FileSystemMetricsView {
        sub_admin_metrics_id: owners.0,
        staff_metrics_id: owners.1,
        filesystem: Some(sampled_volume()),
        status: Some(status),
    }
}

impl FileSystemMetrics {
    /// A record with the given owners, volume and state.
    pub fn new(
        sub_admin_metrics_id: Option<i32>,
        staff_metrics_id: Option<i32>,
        filesystem: Option<String>,
        status: Option<String>,
    ) -> (metrics: Self)
        ensures
            metrics == (FileSystemMetrics {
                sub_admin_metrics_id,
                staff_metrics_id,
                filesystem,
                status,
            }),
    {
        Self { sub_admin_metrics_id, staff_metrics_id, filesystem, status }
    }

    /// Overwrites volume and state and leaves the owners alone.
    pub fn update(&mut self, new_filesystem: Option<String>, new_status: Option<String>)
        ensures
            *final(self) == (FileSystemMetrics {
                filesystem: new_filesystem,
                status: new_status,
                ..*old(self)
            }),
    {
        self.filesystem = new_filesystem;
        self.status = new_status;
    }
}

/// The volume that the caller asks the volume tool about.
pub fn volume_to_sample() -> (volume: String)
    ensures
        volume@ == sampled_volume(),
{
    String::from_str("C:")
}

/// A new record for the given owners from what the volume tool printed for
/// the sampled volume.
pub fn gather_filesystem_metrics(
    sub_admin_metrics_id: Option<i32>,
    staff_metrics_id: Option<i32>,
    status: String,
) -> (metrics: FileSystemMetrics)
    ensures
        metrics@ == (FileSystemMetricsView {
            sub_admin_metrics_id,
            staff_metrics_id,
            filesystem: Some(sampled_volume()),
            status: Some(status@),
        }),
{
    FileSystemMetrics::new(
        sub_admin_metrics_id,
        staff_metrics_id,
        Some(volume_to_sample()),
        Some(status),
    )
}

/// One pass for `user_id` over what the volume tool printed for the sampled
/// volume: refreshes the stored record, or creates one where none was
/// stored. The caller persists what comes back.
pub fn get_filesystem_info_handler(
    stored: Option<FileSystemMetrics>,
    user_id: i32,
    status: String,
) -> (metrics: FileSystemMetrics)
    ensures
        metrics@ == reconciled_filesystem(stored, user_id, status@),
{
    match stored {
        Some(mut record) => {
            record.update(Some(volume_to_sample()), Some(status));
            record
        },
        None => gather_filesystem_metrics(Some(user_id), None, status),
    }
}

} // verus!
