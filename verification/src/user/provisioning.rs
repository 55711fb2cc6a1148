//! The steps of provisioning an account, one storage write at a time.
//!
//! Provisioning first stores the account. For a sub-admin or a staff member
//! it then takes a baseline of every telemetry domain for the new owner, in
//! a fixed order, each with a write of its own. The first write that fails
//! ends the request with an error; what was written before stays written.

use vstd::prelude::*;
use vstd::string::StringExecFns;
use crate::metrics::domain::{baseline_order, Domain};
use crate::metrics::owner::exclusively_owned;
use crate::response::{Reply, STATUS_CREATED, STATUS_INTERNAL_SERVER_ERROR};
use crate::user::users::UserRole;

verus! {

/// One storage write of provisioning.
#[derive(Clone, Copy, Debug, PartialEq, Eq, Structural)]
pub enum ProvisionStep {
    /// Store the account itself.
    PersistAccount,
    /// Sample one domain for the new owner and store the record.
    Baseline(Domain),
}

/// What follows a step.
#[derive(Clone, Debug, PartialEq, Eq)]
pub enum Progress {
    /// Another write is due.
    Next(ProvisionStep),
    /// The request is over, with this answer.
    Answer(Reply),
}

/// Whether accounts of this role own telemetry.
pub open spec fn owns_telemetry(role: UserRole) -> bool {
    role is SubAdmin || role is Staff
}

/// The write that follows `done` when `done` succeeded, `None` when
/// provisioning is complete.
pub open spec fn step_after(role: UserRole, done: ProvisionStep) -> Option<ProvisionStep> {
    match done {
        ProvisionStep::PersistAccount => if owns_telemetry(role) {
            Some(ProvisionStep::Baseline(Domain::SystemInfo))
        } else {
            None
        },
        ProvisionStep::Baseline(domain) => match domain.spec_successor() {
            Some(next) => Some(ProvisionStep::Baseline(next)),
            None => None,
        },
    }
}

/// The role's name in messages.
pub open spec fn role_name(role: UserRole) -> Seq<char> {
    match role {
        UserRole::SuperAdmin => "super admin"@,
        UserRole::SubAdmin => "sub admin"@,
        UserRole::Staff => "staff"@,
        UserRole::Technician => "technician"@,
    }
}

/// The body of the answer to a completed provisioning.
pub open spec fn created_text(role: UserRole) -> Seq<char> {
    match role {
        UserRole::SuperAdmin => "Super admin created successfully"@,
        UserRole::SubAdmin => "Sub admin created successfully"@,
        UserRole::Staff => "Staff created successfully"@,
        UserRole::Technician => "Technician created successfully"@,
    }
}

/// The body of the answer to a provisioning whose write `failed` failed
/// with `detail`.
pub open spec fn failure_text(role: UserRole, failed: ProvisionStep, detail: Seq<char>) -> Seq<
    char,
> {
    match failed {
        ProvisionStep::PersistAccount => "Failed to create "@ + role_name(role) + ": "@ + detail,
        ProvisionStep::Baseline(domain) => "Failed to save "@ + domain.spec_label() + " info: "@
            + detail,
    }
}

/// What `advance` answers.
pub open spec fn progress_after(
    role: UserRole,
    done: ProvisionStep,
    outcome: Result<(), String>,
    progress: Progress,
) -> bool {
    match outcome {
        Ok(_) => match step_after(role, done) {
            Some(next) => progress == Progress::Next(next),
            None => progress matches Progress::Answer(reply) && reply.status == STATUS_CREATED
                && reply.body@ == created_text(role),
        },
        Err(detail) => progress matches Progress::Answer(reply) && reply.status
            == STATUS_INTERNAL_SERVER_ERROR && reply.body@ == failure_text(role, done, detail@),
    }
}

/// The writes of a provisioning that meets no failure: the account, and for
/// a role that owns telemetry every domain of the baseline order, one after
/// the other, with nothing after the last.
pub proof fn law_steps_follow_baseline_order(role: UserRole, position: int)
    requires
        0 <= position < baseline_order().len(),
    ensures
        step_after(role, ProvisionStep::PersistAccount) == if owns_telemetry(role) {
            Some(ProvisionStep::Baseline(baseline_order()[0]))
        } else {
            None
        },
        step_after(role, ProvisionStep::Baseline(baseline_order()[position])) == if position + 1
            < baseline_order().len() {
            Some(ProvisionStep::Baseline(baseline_order()[position + 1]))
        } else {
            None
        },
{
}

/// The first write of every provisioning: the account.
pub fn first_step() -> (step: ProvisionStep)
    ensures
        step == ProvisionStep::PersistAccount,
{
    ProvisionStep::PersistAccount
}

/// The answer to a completed provisioning.
pub fn created_reply(role: UserRole) -> (reply: Reply)
    ensures
        reply.status == STATUS_CREATED,
        reply.body@ == created_text(role),
{
    match role {
        UserRole::SuperAdmin => Reply::new(STATUS_CREATED, "Super admin created successfully"),
        UserRole::SubAdmin => Reply::new(STATUS_CREATED, "Sub admin created successfully"),
        UserRole::Staff => Reply::new(STATUS_CREATED, "Staff created successfully"),
        UserRole::Technician => Reply::new(STATUS_CREATED, "Technician created successfully"),
    }
}

/// The answer to a provisioning whose write `failed` failed with `detail`.
pub fn failure_reply(role: UserRole, failed: ProvisionStep, detail: &str) -> (reply: Reply)
    ensures
        reply.status == STATUS_INTERNAL_SERVER_ERROR,
        reply.body@ == failure_text(role, failed, detail@),
{
    let mut body = match failed {
        ProvisionStep::PersistAccount => {
            let name = match role {
                UserRole::SuperAdmin => "super admin",
                UserRole::SubAdmin => "sub admin",
                UserRole::Staff => "staff",
                UserRole::Technician => "technician",
            };
            let mut text = String::from_str("Failed to create ");
            text.append(name);
            text.append(": ");
            text
        },
        ProvisionStep::Baseline(domain) => {
            let mut text = String::from_str("Failed to save ");
            text.append(domain.label());
            text.append(" info: ");
            text
        },
    };
    body.append(detail);
    Reply { status: STATUS_INTERNAL_SERVER_ERROR, body }
}

/// Decides what follows the write `done`, given how it went: the next
/// write, the answer to a completed provisioning, or the answer to a failed
/// one. Nothing is undone on failure.
pub fn advance(role: UserRole, done: ProvisionStep, outcome: Result<(), String>) -> (progress:
    Progress)
    ensures
        progress_after(role, done, outcome, progress),
{
    match outcome {
        Ok(_) => {
            let next = match done {
                ProvisionStep::PersistAccount => match role {
                    UserRole::SubAdmin | UserRole::Staff => Some(
                        ProvisionStep::Baseline(Domain::first()),
                    ),
                    _ => None,
                },
                ProvisionStep::Baseline(domain) => match domain.successor() {
                    Some(next) => Some(ProvisionStep::Baseline(next)),
                    None => None,
                },
            };
            match next {
                Some(step) => Progress::Next(step),
                None => Progress::Answer(created_reply(role)),
            }
        },
        Err(detail) => Progress::Answer(failure_reply(role, done, detail.as_str())),
    }
}

/// The owner columns of the baseline records of a new account: the metrics
/// identifier in the column of the account's role.
pub fn baseline_owners(role: UserRole, metrics_id: i32) -> (owners: Option<
    (Option<i32>, Option<i32>),
>)
    ensures
        owners == match role {
            UserRole::SubAdmin => Some((Some(metrics_id), None::<i32>)),
            UserRole::Staff => Some((None::<i32>, Some(metrics_id))),
            _ => None,
        },
        owners matches Some(pair) ==> exclusively_owned(pair.0, pair.1),
{
    match role {
        UserRole::SubAdmin => Some((Some(metrics_id), None)),
        UserRole::Staff => Some((None, Some(metrics_id))),
        _ => None,
    }
}

} // verus!
