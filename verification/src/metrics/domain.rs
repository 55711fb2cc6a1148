//! The telemetry domains and what they have in common.

use vstd::prelude::*;
use vstd::string::StringExecFns;
use crate::response::{Reply, STATUS_INTERNAL_SERVER_ERROR};

verus! {

/// One category of telemetry.
#[derive(Clone, Copy, Debug, PartialEq, Eq, Structural)]
pub enum Domain {
    SystemInfo,
    Cpu,
    Disk,
    Memory,
    Network,
    Filesystem,
    IpLocation,
    Process,
    ServiceStatus,
    Uptime,
}

/// How a record reaches storage.
#[derive(Clone, Copy, Debug, PartialEq, Eq, Structural)]
pub enum Persistence {
    /// A plain insert: every pass adds a row.
    Insert,
    /// An insert that overwrites the owner's row where there is one.
    Upsert,
}

/// The domains in the order in which a new owner's baseline is taken.
pub open spec fn baseline_order() -> Seq<Domain> {
    seq![
        Domain::SystemInfo,
        Domain::Cpu,
        Domain::Disk,
        Domain::Memory,
        Domain::Network,
        Domain::Filesystem,
        Domain::IpLocation,
        Domain::Process,
        Domain::ServiceStatus,
        Domain::Uptime,
    ]
}

/// Seconds between two samples of one domain.
pub const SAMPLE_PERIOD_SECS: u64 = 3600;

impl Domain {
    /// The place of the domain in the baseline order.
    pub open spec fn position(self) -> int {
        match self {
            Domain::SystemInfo => 0,
            Domain::Cpu => 1,
            Domain::Disk => 2,
            Domain::Memory => 3,
            Domain::Network => 4,
            Domain::Filesystem => 5,
            Domain::IpLocation => 6,
            Domain::Process => 7,
            Domain::ServiceStatus => 8,
            Domain::Uptime => 9,
        }
    }

    /// The domain that follows in the baseline order.
    pub open spec fn spec_successor(self) -> Option<Domain> {
        if self.position() + 1 < baseline_order().len() {
            Some(baseline_order()[self.position() + 1])
        } else {
            None
        }
    }

    /// Whether the domain's save overwrites the owner's row.
    pub open spec fn conflict_aware(self) -> bool {
        self is Cpu || self is ServiceStatus
    }

    /// The first domain of the baseline order.
    pub fn first() -> (domain: Domain)
        ensures
            domain == baseline_order()[0],
    {
        Domain::SystemInfo
    }

    /// The domain that follows in the baseline order, `None` after the last.
    pub fn successor(self) -> (next: Option<Domain>)
        ensures
            next == self.spec_successor(),
    {
        match self {
            Domain::SystemInfo => Some(Domain::Cpu),
            Domain::Cpu => Some(Domain::Disk),
            Domain::Disk => Some(Domain::Memory),
            Domain::Memory => Some(Domain::Network),
            Domain::Network => Some(Domain::Filesystem),
            Domain::Filesystem => Some(Domain::IpLocation),
            Domain::IpLocation => Some(Domain::Process),
            Domain::Process => Some(Domain::ServiceStatus),
            Domain::ServiceStatus => Some(Domain::Uptime),
            Domain::Uptime => None,
        }
    }

    /// How the domain's records are saved: CPU and service status overwrite
    /// the owner's row, the others add a row on every pass.
    pub fn persistence(self) -> (mode: Persistence)
        ensures
            mode == if self.conflict_aware() {
                Persistence::Upsert
            } else {
                Persistence::Insert
            },
    {
        match self {
            Domain::Cpu | Domain::ServiceStatus => Persistence::Upsert,
            _ => Persistence::Insert,
        }
    }

    /// The name of the domain in messages.
    pub open spec fn spec_label(self) -> Seq<char> {
        match self {
            Domain::SystemInfo => "system"@,
            Domain::Cpu => "CPU"@,
            Domain::Disk => "disk"@,
            Domain::Memory => "memory"@,
            Domain::Network => "network"@,
            Domain::Filesystem => "filesystem"@,
            Domain::IpLocation => "ip"@,
            Domain::Process => "process"@,
            Domain::ServiceStatus => "services"@,
            Domain::Uptime => "uptime"@,
        }
    }

    /// The name of the domain in messages.
    pub fn label(self) -> (name: &'static str)
        ensures
            name@ == self.spec_label(),
    {
        match self {
            Domain::SystemInfo => "system",
            Domain::Cpu => "CPU",
            Domain::Disk => "disk",
            Domain::Memory => "memory",
            Domain::Network => "network",
            Domain::Filesystem => "filesystem",
            Domain::IpLocation => "ip",
            Domain::Process => "process",
            Domain::ServiceStatus => "services",
            Domain::Uptime => "uptime",
        }
    }
}

/// The body of the answer to a pass of `domain` whose write failed.
pub open spec fn write_failed_text(domain: Domain) -> Seq<char> {
    "Failed to save "@ + domain.spec_label() + " info"@
}

/// Decides what follows the write of a pass of `domain`: nothing stands in
/// the way of the record where the write went through, and a failed write,
/// whatever its detail, is answered with 500 and a body that names the
/// domain and nothing else.
pub fn write_outcome(domain: Domain, saved: Result<(), String>) -> (reply: Option<Reply>)
    ensures
        saved is Ok ==> reply is None,
        saved is Err ==> (reply matches Some(failure) && failure.status
            == STATUS_INTERNAL_SERVER_ERROR && failure.body@ == write_failed_text(domain)),
{
    match saved {
        Ok(_) => None,
        Err(_) => {
            let mut body = String::from_str("Failed to save ");
            body.append(domain.label());
            body.append(" info");
            Some(Reply { status: STATUS_INTERNAL_SERVER_ERROR, body })
        },
    }
}

/// Every domain stands in the baseline order, at its position, and once.
pub proof fn law_baseline_covers_every_domain(domain: Domain)
    ensures
        0 <= domain.position() < baseline_order().len(),
        baseline_order()[domain.position()] == domain,
        forall|i: int|
            0 <= i < baseline_order().len() && baseline_order()[i] == domain ==> i
                == domain.position(),
{
}

} // verus!
