//! Ownership of telemetry records.
//!
//! Every record carries two owner columns, one for a sub-admin and one for a
//! staff member. A record that is handed to storage has exactly one of them
//! set.

use vstd::prelude::*;

verus! {

/// Exactly one of the two owner columns is set.
pub open spec fn exclusively_owned(sub_admin: Option<i32>, staff: Option<i32>) -> bool {
    sub_admin.is_some() != staff.is_some()
}

/// One of the two owner columns holds `id`: the condition by which a stored
/// record is looked up.
pub open spec fn owned_by(sub_admin: Option<i32>, staff: Option<i32>, id: i32) -> bool {
    sub_admin == Some(id) || staff == Some(id)
}

/// The owner columns of a record that a pass produces: those of the stored
/// record on a hit, and `id` as the sub-admin owner on a miss.
pub open spec fn pass_owners(stored: Option<(Option<i32>, Option<i32>)>, id: i32) -> (
    Option<i32>,
    Option<i32>,
) {
    match stored {
        Some(owners) => owners,
        None => (Some(id), None),
    }
}

/// What every telemetry record offers, whatever its domain.
pub trait MetricRecord: Sized {
    /// The sub-admin owner column.
    spec fn sub_admin_owner(&self) -> Option<i32>;

    /// The staff owner column.
    spec fn staff_owner(&self) -> Option<i32>;

    /// Both owner columns, sub-admin first.
    fn owners(&self) -> (pair: (Option<i32>, Option<i32>))
        ensures
            pair == (self.sub_admin_owner(), self.staff_owner()),
    ;
}

/// The owner columns of a stored record, if there is one.
pub open spec fn stored_owners<R: MetricRecord>(stored: Option<R>) -> Option<
    (Option<i32>, Option<i32>),
> {
    match stored {
        Some(record) => Some((record.sub_admin_owner(), record.staff_owner())),
        None => None,
    }
}

/// The owner columns that a pass for `id` leaves on its record.
pub open spec fn owners_after_pass<R: MetricRecord>(stored: Option<R>, id: i32) -> (
    Option<i32>,
    Option<i32>,
) {
    pass_owners(stored_owners(stored), id)
}

/// Whether `record` belongs to exactly one owner.
pub open spec fn record_exclusively_owned<R: MetricRecord>(record: &R) -> bool {
    exclusively_owned(record.sub_admin_owner(), record.staff_owner())
}

/// Whether `record` belongs to `id`.
pub open spec fn record_owned_by<R: MetricRecord>(record: &R, id: i32) -> bool {
    owned_by(record.sub_admin_owner(), record.staff_owner(), id)
}

/// The record of a pass for `id` has exactly one owner, and that owner is
/// `id`, as long as the stored record, where there is one, has exactly one
/// owner and was found under `id`.
pub proof fn law_pass_keeps_one_owner<R: MetricRecord>(stored: Option<R>, id: i32)
    requires
        stored matches Some(record) ==> record_exclusively_owned(&record) && record_owned_by(
            &record,
            id,
        ),
    ensures
        exclusively_owned(owners_after_pass(stored, id).0, owners_after_pass(stored, id).1),
        owned_by(owners_after_pass(stored, id).0, owners_after_pass(stored, id).1, id),
{
}

/// Tells whether exactly one owner column is set.
pub fn is_exclusively_owned<R: MetricRecord>(record: &R) -> (exclusive: bool)
    ensures
        exclusive == record_exclusively_owned(record),
{
    let pair = record.owners();
    pair.0.is_some() != pair.1.is_some()
}

/// Tells whether `record` belongs to `id`.
pub fn is_owned_by<R: MetricRecord>(record: &R, id: i32) -> (owned: bool)
    ensures
        owned == record_owned_by(record, id),
{
    let pair = record.owners();
    let by_sub_admin = match pair.0 {
        Some(owner) => owner == id,
        None => false,
    };
    let by_staff = match pair.1 {
        Some(owner) => owner == id,
        None => false,
    };
    by_sub_admin || by_staff
}

} // verus!
