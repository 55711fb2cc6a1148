//! The state of the watched operating-system service, as the service tool
//! prints it.
//!
//! Of the services of a host one is sampled, `wuauserv`. A pass takes one
//! sample and makes one write, on a hit as on a miss; no second service is
//! walked.

use vstd::prelude::*;
use vstd::string::StringExecFns;
use crate::metrics::owner::{owners_after_pass, MetricRecord};
use crate::metrics::text::text_of;

verus! {

/// The state of a service on one owner's host.
#[derive(Clone, Debug, PartialEq, Eq)]
pub struct ServiceStatus {
    pub sub_admin_metrics_id: Option<i32>,
    pub staff_metrics_id: Option<i32>,
    pub service_name: Option<String>,
    pub status: Option<String>,
}

/// A `ServiceStatus` with its texts as sequences of characters.
pub struct ServiceStatusView {
    pub sub_admin_metrics_id: Option<i32>,
    pub staff_metrics_id: Option<i32>,
    pub service_name: Option<Seq<char>>,
    pub status: Option<Seq<char>>,
}

impl View for ServiceStatus {
    type V = ServiceStatusView;

    open spec fn view(&self) -> ServiceStatusView {
        ServiceStatusView {
            sub_admin_metrics_id: self.sub_admin_metrics_id,
            staff_metrics_id: self.staff_metrics_id,
            service_name: text_of(self.service_name),
            status: text_of(self.status),
        }
    }
}

impl MetricRecord for ServiceStatus {
    open spec fn sub_admin_owner(&self) -> Option<i32> {
        self.sub_admin_metrics_id
    }

    open spec fn staff_owner(&self) -> Option<i32> {
        self.staff_metrics_id
    }

    fn owners(&self) -> (pair: (Option<i32>, Option<i32>)) {
        (self.sub_admin_metrics_id, self.staff_metrics_id)
    }
}

/// The service whose state is sampled.
pub open spec fn watched_service() -> Seq<char> {
    "wuauserv"@
}

/// The record that a pass leaves for `user_id` when the service tool
/// printed `status`: a stored record keeps its service name and takes the
/// new state; a new record names the watched service.
pub open spec fn reconciled_service_status(
    stored: Option<ServiceStatus>,
    user_id: i32,
    status: Option<String>,
) -> ServiceStatusView {
    match stored {
        Some(record) => ServiceStatusView { status: text_of(status), ..record@ },
        None => ServiceStatusView {
            sub_admin_metrics_id: Some(user_id),
            staff_metrics_id: None,
            service_name: Some(watched_service()),
            status: text_of(status),
        },
    }
}

impl ServiceStatus {
    /// A record with the given owners, service and state.
    pub fn new(
        sub_admin_metrics_id: Option<i32>,
        staff_metrics_id: Option<i32>,
        service_name: Option<String>,
        status: Option<String>,
    ) -> (service: Self)
        ensures
            service == (ServiceStatus {
                sub_admin_metrics_id,
                staff_metrics_id,
                service_name,
                status,
            }),
    {
        Self { sub_admin_metrics_id, staff_metrics_id, service_name, status }
    }

    /// Overwrites the state and leaves owners and service name alone.
    pub fn update(&mut self, new_status: Option<String>)
        ensures
            *final(self) == (ServiceStatus { status: new_status, ..*old(self) }),
    {
        self.status = new_status;
    }
}

/// The service that the caller asks the service tool about.
pub fn service_to_sample() -> (service: String)
    ensures
        service@ == watched_service(),
{
    String::from_str("wuauserv")
}

/// A new record for the given owners from what the service tool printed for
/// the watched service; the state is absent where the output was no text.
pub fn gather_services_status_metrics(
    sub_admin_metrics_id: Option<i32>,
    staff_metrics_id: Option<i32>,
    status: Option<String>,
) -> (service: ServiceStatus)
    ensures
        service@ == (ServiceStatusView {
            sub_admin_metrics_id,
            staff_metrics_id,
            service_name: Some(watched_service()),
            status: text_of(status),
        }),
{
    ServiceStatus::new(sub_admin_metrics_id, staff_metrics_id, Some(service_to_sample()), status)
}

/// One pass for `user_id` over what the service tool printed: refreshes the
/// stored record, or creates one where none was stored. The caller persists
/// what comes back.
pub fn get_services_status_info_handler(
    stored: Option<ServiceStatus>,
    user_id: i32,
    status: Option<String>,
) -> (service: ServiceStatus)
    ensures
        service@ == reconciled_service_status(stored, user_id, status),
        (service.sub_admin_metrics_id, service.staff_metrics_id) == owners_after_pass(
            stored,
            user_id,
        ),
{
    match stored {
        Some(mut record) => {
            record.update(status);
            record
        },
        None => gather_services_status_metrics(Some(user_id), None, status),
    }
}

} // verus!
