//! A table of telemetry records, as storage keeps one per domain.
//!
//! The table stands for the persisted state: rows in the order in which
//! they were written. Records reach it by a plain insert or by an insert
//! that overwrites the row of the same owner, as the domain has it.

use vstd::prelude::*;
use crate::metrics::domain::Persistence;
use crate::metrics::owner::{
    is_owned_by,
    pass_owners,
    record_exclusively_owned,
    record_owned_by,
    MetricRecord,
};

verus! {

/// The rows of one domain, oldest first. Every row has exactly one owner.
pub struct MetricTable<R: MetricRecord> {
    rows: Vec<R>,
}

/// Every row has exactly one of its two owner columns set.
pub open spec fn all_exclusively_owned<R: MetricRecord>(rows: Seq<R>) -> bool {
    forall|i: int| 0 <= i < rows.len() ==> record_exclusively_owned(&#[trigger] rows[i])
}

/// The owner columns of a row.
pub open spec fn owners_of<R: MetricRecord>(row: R) -> (Option<i32>, Option<i32>) {
    (row.sub_admin_owner(), row.staff_owner())
}

/// How many rows belong to `id`.
pub open spec fn owned_count<R: MetricRecord>(rows: Seq<R>, id: i32) -> nat
    decreases rows.len(),
{
    if rows.len() == 0 {
        0
    } else {
        owned_count(rows.drop_last(), id) + if record_owned_by(&rows.last(), id) {
            1nat
        } else {
            0nat
        }
    }
}

/// The place of the oldest row that belongs to `id`: the row that a lookup
/// finds.
pub open spec fn first_owned<R: MetricRecord>(rows: Seq<R>, id: i32) -> Option<int>
    decreases rows.len(),
{
    if rows.len() == 0 {
        None
    } else {
        match first_owned(rows.drop_last(), id) {
            Some(index) => Some(index),
            None => if record_owned_by(&rows.last(), id) {
                Some(rows.len() - 1)
            } else {
                None
            },
        }
    }
}

/// The place of the oldest row with exactly these owner columns: the row
/// that an overwriting insert conflicts with.
pub open spec fn conflicting_row<R: MetricRecord>(
    rows: Seq<R>,
    owners: (Option<i32>, Option<i32>),
) -> Option<int>
    decreases rows.len(),
{
    if rows.len() == 0 {
        None
    } else {
        match conflicting_row(rows.drop_last(), owners) {
            Some(index) => Some(index),
            None => if owners_of(rows.last()) == owners {
                Some(rows.len() - 1)
            } else {
                None
            },
        }
    }
}

/// The rows after `record` was written in the given way.
pub open spec fn persisted<R: MetricRecord>(rows: Seq<R>, record: R, mode: Persistence) -> Seq<R> {
    match mode {
        Persistence::Insert => rows.push(record),
        Persistence::Upsert => match conflicting_row(rows, owners_of(record)) {
            Some(index) => rows.update(index, record),
            None => rows.push(record),
        },
    }
}

/// Whether `record` can come out of a pass for `id` over `rows`: it has the
/// owners of the row that the lookup finds, or `id` as its sub-admin owner
/// where the lookup finds none.
pub open spec fn produced_by_pass<R: MetricRecord>(rows: Seq<R>, id: i32, record: R) -> bool {
    owners_of(record) == pass_owners(
        match first_owned(rows, id) {
            Some(index) => Some(owners_of(rows[index])),
            None => None,
        },
        id,
    )
}

impl<R: MetricRecord> View for MetricTable<R> {
    type V = Seq<R>;

    closed spec fn view(&self) -> Seq<R> {
        self.rows@
    }
}

impl<R: MetricRecord> MetricTable<R> {
    /// What holds of every table: no row is shared, none is ownerless.
    #[verifier::type_invariant]
    spec fn exclusive(self) -> bool {
        all_exclusively_owned(self.rows@)
    }

    /// A table without rows.
    pub fn new() -> (table: Self)
        ensures
            table@ == Seq::<R>::empty(),
    {
        MetricTable { rows: Vec::new() }
    }

    /// The number of rows.
    pub fn len(&self) -> (count: usize)
        ensures
            count == self@.len(),
    {
        self.rows.len()
    }

    /// The row at `index`, oldest first.
    pub fn row(&self, index: usize) -> (row: Option<&R>)
        ensures
            match row {
                Some(found) => index < self@.len() && *found == self@[index as int]
                    && record_exclusively_owned(found),
                None => index >= self@.len(),
            },
    {
        proof {
            use_type_invariant(self);
        }
        if index < self.rows.len() {
            Some(&self.rows[index])
        } else {
            None
        }
    }

    /// The oldest row that belongs to `id`.
    pub fn lookup(&self, id: i32) -> (found: Option<&R>)
        ensures
            match found {
                Some(row) => first_owned(self@, id) matches Some(index) && *row == self@[index]
                    && record_exclusively_owned(row),
                None => first_owned(self@, id) is None,
            },
    {
        proof {
            use_type_invariant(self);
        }
        let mut index: usize = 0;
        while index < self.rows.len()
            invariant
                index <= self.rows.len(),
                all_exclusively_owned(self.rows@),
                first_owned(self.rows@.take(index as int), id) is None,
            decreases self.rows.len() - index,
        {
            proof {
                assert(self.rows@.take(index + 1).drop_last() == self.rows@.take(index as int));
                lemma_first_owned_of_prefix(self.rows@, id, index + 1);
            }
            if is_owned_by(&self.rows[index], id) {
                return Some(&self.rows[index]);
            }
            index = index + 1;
        }
        proof {
            assert(self.rows@.take(index as int) == self.rows@);
        }
        None
    }

    /// How many rows belong to `id`.
    pub fn count_owned(&self, id: i32) -> (count: usize)
        ensures
            count == owned_count(self@, id),
    {
        let mut count: usize = 0;
        let mut index: usize = 0;
        while index < self.rows.len()
            invariant
                index <= self.rows.len(),
                count == owned_count(self.rows@.take(index as int), id),
                count <= index,
            decreases self.rows.len() - index,
        {
            proof {
                assert(self.rows@.take(index + 1).drop_last() == self.rows@.take(index as int));
            }
            if is_owned_by(&self.rows[index], id) {
                count = count + 1;
            }
            index = index + 1;
        }
        proof {
            assert(self.rows@.take(index as int) == self.rows@);
        }
        count
    }

    /// Writes `record` in the given way: at the end, or over the oldest row
    /// of the same owners where the write overwrites and there is one. Only
    /// a record with exactly one owner is written.
    pub fn persist(&mut self, record: R, mode: Persistence)
        requires
            record_exclusively_owned(&record),
        ensures
            final(self)@ == persisted(old(self)@, record, mode),
    {
        proof {
            use_type_invariant(&*self);
        }
        let mut taken = MetricTable::new();
        core::mem::swap(self, &mut taken);
        let mut rows = taken.rows;
        match mode {
            Persistence::Insert => {
                rows.push(record);
            },
            Persistence::Upsert => {
                let owners = record.owners();
                let ghost before = rows@;
                let mut index: usize = 0;
                let mut found = false;
                while !found && index < rows.len()
                    invariant
                        index <= rows.len(),
                        rows@ == before,
                        !found ==> conflicting_row(before.take(index as int), owners) is None,
                        found ==> index < rows.len() && conflicting_row(before, owners) == Some(
                            index as int,
                        ),
                    decreases rows.len() - index + (if found { 0int } else { 1int }),
                {
                    proof {
                        let prefix = before.take(index + 1);
                        assert(prefix.drop_last() == before.take(index as int));
                        assert(prefix.last() == before[index as int]);
                        lemma_conflicting_row_of_prefix(before, owners, index + 1);
                    }
                    let row_owners = rows[index].owners();
                    if same_owners(row_owners, owners) {
                        found = true;
                    } else {
                        index = index + 1;
                    }
                }
                if found {
                    rows.set(index, record);
                } else {
                    proof {
                        assert(before.take(index as int) == before);
                    }
                    rows.push(record);
                }
            },
        }
        proof {
            law_persisting_keeps_rows_exclusively_owned(old(self)@, record, mode);
        }
        *self = MetricTable { rows };
    }
}

/// Tells whether two pairs of owner columns are the same.
pub fn same_owners(left: (Option<i32>, Option<i32>), right: (Option<i32>, Option<i32>)) -> (same:
    bool)
    ensures
        same == (left == right),
{
    let sub_admin = match (left.0, right.0) {
        (Some(a), Some(b)) => a == b,
        (None, None) => true,
        _ => false,
    };
    let staff = match (left.1, right.1) {
        (Some(a), Some(b)) => a == b,
        (None, None) => true,
        _ => false,
    };
    sub_admin && staff
}

/// What a lookup finds in the first `n` rows it finds in all of them.
pub proof fn lemma_first_owned_of_prefix<R: MetricRecord>(rows: Seq<R>, id: i32, n: int)
    requires
        0 <= n <= rows.len(),
    ensures
        first_owned(rows.take(n), id) matches Some(index) ==> first_owned(rows, id) == Some(index),
    decreases rows.len() - n,
{
    if n < rows.len() {
        assert(rows.take(n + 1).drop_last() == rows.take(n));
        lemma_first_owned_of_prefix(rows, id, n + 1);
    } else {
        assert(rows.take(n) == rows);
    }
}

/// A conflict among the first `n` rows is the conflict among all of them.
pub proof fn lemma_conflicting_row_of_prefix<R: MetricRecord>(
    rows: Seq<R>,
    owners: (Option<i32>, Option<i32>),
    n: int,
)
    requires
        0 <= n <= rows.len(),
    ensures
        conflicting_row(rows.take(n), owners) matches Some(index) ==> conflicting_row(rows, owners)
            == Some(index),
    decreases rows.len() - n,
{
    if n < rows.len() {
        assert(rows.take(n + 1).drop_last() == rows.take(n));
        lemma_conflicting_row_of_prefix(rows, owners, n + 1);
    } else {
        assert(rows.take(n) == rows);
    }
}

/// A lookup finds a row exactly when some row belongs to `id`, and the row
/// it finds belongs to `id`.
pub proof fn lemma_first_owned_sound<R: MetricRecord>(rows: Seq<R>, id: i32)
    ensures
        first_owned(rows, id) is Some <==> owned_count(rows, id) > 0,
        first_owned(rows, id) matches Some(index) ==> 0 <= index < rows.len() && record_owned_by(
            &rows[index],
            id,
        ),
    decreases rows.len(),
{
    if rows.len() > 0 {
        lemma_first_owned_sound(rows.drop_last(), id);
    }
}

/// The conflicting row, where there is one, has the owners asked for; where
/// there is none, no row has them.
pub proof fn lemma_conflicting_row_sound<R: MetricRecord>(
    rows: Seq<R>,
    owners: (Option<i32>, Option<i32>),
)
    ensures
        match conflicting_row(rows, owners) {
            Some(index) => 0 <= index < rows.len() && owners_of(rows[index]) == owners,
            None => forall|i: int| 0 <= i < rows.len() ==> owners_of(#[trigger] rows[i]) != owners,
        },
    decreases rows.len(),
{
    if rows.len() > 0 {
        lemma_conflicting_row_sound(rows.drop_last(), owners);
        if conflicting_row(rows.drop_last(), owners) is None {
            assert forall|i: int| 0 <= i < rows.len() - 1 implies owners_of(#[trigger] rows[i])
                != owners by {
                assert(rows.drop_last()[i] == rows[i]);
            }
        }
    }
}

/// Overwriting a row changes the count of an owner by what the old row
/// gave and the new one gives.
pub proof fn lemma_owned_count_update<R: MetricRecord>(rows: Seq<R>, index: int, record: R, id: i32)
    requires
        0 <= index < rows.len(),
    ensures
        owned_count(rows.update(index, record), id) + (if record_owned_by(&rows[index], id) {
            1nat
        } else {
            0nat
        }) == owned_count(rows, id) + (if record_owned_by(&record, id) {
            1nat
        } else {
            0nat
        }),
    decreases rows.len(),
{
    let updated = rows.update(index, record);
    if index == rows.len() - 1 {
        assert(updated.drop_last() == rows.drop_last());
    } else {
        assert(updated.drop_last() == rows.drop_last().update(index, record));
        lemma_owned_count_update(rows.drop_last(), index, record, id);
    }
}

/// No row belongs to an owner whose count is zero.
pub proof fn lemma_uncounted_owner_has_no_row<R: MetricRecord>(rows: Seq<R>, id: i32)
    requires
        owned_count(rows, id) == 0,
    ensures
        forall|i: int| 0 <= i < rows.len() ==> !record_owned_by(&#[trigger] rows[i], id),
    decreases rows.len(),
{
    if rows.len() > 0 {
        lemma_uncounted_owner_has_no_row(rows.drop_last(), id);
        assert forall|i: int| 0 <= i < rows.len() implies !record_owned_by(
            &#[trigger] rows[i],
            id,
        ) by {
            if i < rows.len() - 1 {
                assert(rows.drop_last()[i] == rows[i]);
            }
        }
    }
}

/// Writing a record with exactly one owner into rows that each have
/// exactly one leaves rows that each have exactly one.
pub proof fn law_persisting_keeps_rows_exclusively_owned<R: MetricRecord>(
    rows: Seq<R>,
    record: R,
    mode: Persistence,
)
    requires
        all_exclusively_owned(rows),
        record_exclusively_owned(&record),
    ensures
        all_exclusively_owned(persisted(rows, record, mode)),
{
    lemma_conflicting_row_sound(rows, owners_of(record));
}

/// The record of a pass over rows that each have exactly one owner has
/// exactly one owner.
pub proof fn law_pass_record_exclusively_owned<R: MetricRecord>(rows: Seq<R>, id: i32, record: R)
    requires
        all_exclusively_owned(rows),
        produced_by_pass(rows, id, record),
    ensures
        record_exclusively_owned(&record),
        record_owned_by(&record, id),
{
    lemma_first_owned_sound(rows, id);
}

/// A pass for an owner that storage has never seen leaves exactly one row
/// of that owner, however the domain writes.
pub proof fn law_first_pass_creates_one_row<R: MetricRecord>(
    rows: Seq<R>,
    id: i32,
    record: R,
    mode: Persistence,
)
    requires
        owned_count(rows, id) == 0,
        produced_by_pass(rows, id, record),
    ensures
        owned_count(persisted(rows, record, mode), id) == 1,
{
    lemma_first_owned_sound(rows, id);
    lemma_uncounted_owner_has_no_row(rows, id);
    lemma_conflicting_row_sound(rows, owners_of(record));
    assert(record_owned_by(&record, id));
    assert(conflicting_row(rows, owners_of(record)) is None) by {
        match conflicting_row(rows, owners_of(record)) {
            Some(index) => {
                assert(record_owned_by(&rows[index], id));
            },
            None => {},
        }
    }
    assert(rows.push(record).drop_last() == rows);
}

/// A further pass for an owner keeps the number of the owner's rows where
/// the domain overwrites on conflict: one row stays one row.
pub proof fn law_repeated_pass_overwrites<R: MetricRecord>(rows: Seq<R>, id: i32, record: R)
    requires
        owned_count(rows, id) > 0,
        produced_by_pass(rows, id, record),
    ensures
        owned_count(persisted(rows, record, Persistence::Upsert), id) == owned_count(rows, id),
{
    lemma_first_owned_sound(rows, id);
    let found = first_owned(rows, id)->0;
    lemma_conflicting_row_sound(rows, owners_of(record));
    assert(owners_of(rows[found]) == owners_of(record));
    let index = conflicting_row(rows, owners_of(record))->0;
    assert(record_owned_by(&record, id));
    assert(record_owned_by(&rows[index], id));
    lemma_owned_count_update(rows, index, record, id);
}

/// Two passes in a row for an owner that storage has never seen leave one
/// row of that owner where the domain overwrites on conflict, and two where
/// it writes by plain insert.
pub proof fn law_second_pass_overwrites_or_duplicates<R: MetricRecord>(
    rows: Seq<R>,
    id: i32,
    first: R,
    second: R,
    mode: Persistence,
)
    requires
        owned_count(rows, id) == 0,
        produced_by_pass(rows, id, first),
        produced_by_pass(persisted(rows, first, mode), id, second),
    ensures
        owned_count(persisted(persisted(rows, first, mode), second, mode), id) == match mode {
            Persistence::Upsert => 1nat,
            Persistence::Insert => 2nat,
        },
{
    law_first_pass_creates_one_row(rows, id, first, mode);
    let after_first = persisted(rows, first, mode);
    match mode {
        Persistence::Upsert => law_repeated_pass_overwrites(after_first, id, second),
        Persistence::Insert => law_repeated_pass_duplicates(after_first, id, second),
    }
}

/// A further pass for an owner adds a row of that owner where the domain
/// writes by plain insert: duplicates pile up.
pub proof fn law_repeated_pass_duplicates<R: MetricRecord>(rows: Seq<R>, id: i32, record: R)
    requires
        produced_by_pass(rows, id, record),
    ensures
        owned_count(persisted(rows, record, Persistence::Insert), id) == owned_count(rows, id) + 1,
{
    lemma_first_owned_sound(rows, id);
    assert(record_owned_by(&record, id));
    assert(rows.push(record).drop_last() == rows);
}

} // verus!
