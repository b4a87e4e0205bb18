//! Outcome of a data-modification statement against the SQLite-like engine,
//! which reports its affected-row count as "changes" and a signed last-insert
//! row id that may legitimately be any signed value, including negative.

use vstd::prelude::*;
use crate::any::AnyQueryResult;
use crate::fold::{lemma_sum_of_nonneg, lemma_sum_of_take_le, lemma_sum_of_take_step, sum_of};
use crate::query_result::{HasLastInsertId, HasRowsAffected};

verus! {

/// What the SQLite-like engine reports after one statement: the number of
/// changed rows and the row id of the last insert.
#[derive(Debug)]
pub struct SqliteQueryResult {
    pub changes: u64,
    pub last_insert_rowid: i64,
}

/// The affected-row counts of a sequence of outcomes, in order.
pub open spec fn rows_of(s: Seq<SqliteQueryResult>) -> Seq<u64> {
    s.map_values(|o: SqliteQueryResult| o.changes)
}

/// The row id after folding `s` into an accumulator whose row id is `init`:
/// the last element's row id, or `init` when `s` is empty.
pub open spec fn last_id(init: i64, s: Seq<SqliteQueryResult>) -> i64 {
    if s.len() == 0 {
        init
    } else {
        s.last().last_insert_rowid
    }
}

/// The accumulator state after merging `s` into `acc`: change counts sum,
/// and the row id of the last element wins.
pub open spec fn merged(acc: SqliteQueryResult, s: Seq<SqliteQueryResult>) -> SqliteQueryResult {
    SqliteQueryResult {
        changes: (acc.changes + sum_of(rows_of(s))) as u64,
        last_insert_rowid: last_id(acc.last_insert_rowid, s),
    }
}

/// Merging zero elements leaves any accumulator unchanged; in particular a
/// default-constructed one keeps its zero state.
pub proof fn lemma_empty_merge_identity(acc: SqliteQueryResult)
    ensures
        merged(acc, Seq::<SqliteQueryResult>::empty()) == acc,
{
}

impl Default for SqliteQueryResult {
    /// The zero outcome: no changes, row id zero.
    fn default() -> (r: Self)
        ensures
            r.changes == 0,
            r.last_insert_rowid == 0,
    {
        SqliteQueryResult { changes: 0, last_insert_rowid: 0 }
    }
}

impl HasRowsAffected for SqliteQueryResult {
    open spec fn spec_rows_affected(&self) -> u64 {
        self.changes
    }

    fn rows_affected(&self) -> u64 {
        self.changes
    }
}

impl HasLastInsertId<i64> for SqliteQueryResult {
    open spec fn spec_last_insert_id(&self) -> i64 {
        self.last_insert_rowid
    }

    fn last_insert_id(&self) -> i64 {
        self.last_insert_rowid
    }
}

impl SqliteQueryResult {
    /// Folds the outcomes of `others` into `self` in order: the change
    /// counts add up exactly, and the row id of the last element overwrites
    /// the accumulator's, whatever its value.
    pub fn extend(&mut self, others: Vec<SqliteQueryResult>)
        requires
            old(self).changes + sum_of(rows_of(others@)) <= u64::MAX,
        ensures
            *final(self) == merged(*old(self), others@),
            final(self).changes == old(self).changes + sum_of(rows_of(others@)),
            others@.len() > 0 ==> final(self).last_insert_rowid == others@.last().last_insert_rowid,
            others@.len() == 0 ==> *final(self) == *old(self),
    {
        let n: usize = others.len();
        let mut i: usize = 0;
        while i < n
            invariant
                n == others@.len(),
                i <= n,
                old(self).changes + sum_of(rows_of(others@)) <= u64::MAX,
                self.changes == old(self).changes + sum_of(rows_of(others@).take(i as int)),
                self.last_insert_rowid == last_id(old(self).last_insert_rowid, others@.take(i as int)),
            decreases n - i,
        {
            proof {
                lemma_sum_of_take_step(rows_of(others@), i as int);
                lemma_sum_of_take_le(rows_of(others@), i as int + 1);
                lemma_sum_of_nonneg(rows_of(others@).take(i as int));
                assert(others@.take(i as int + 1).last() == others@[i as int]);
            }
            self.changes = self.changes + others[i].changes;
            self.last_insert_rowid = others[i].last_insert_rowid;
            i = i + 1;
        }
        proof {
            lemma_sum_of_nonneg(rows_of(others@));
            assert(rows_of(others@).take(n as int) =~= rows_of(others@));
            assert(others@.take(n as int) =~= others@);
        }
    }
}

impl From<SqliteQueryResult> for AnyQueryResult {
    /// Converts into the backend-erased outcome: the change count becomes the
    /// row count and the row id is carried over as-is, present. Total: every
    /// input has exactly this one representation.
    fn from(done: SqliteQueryResult) -> (r: Self)
        ensures
            r.rows_affected == done.changes,
            r.last_insert_id == Some(done.last_insert_rowid),
    {
        AnyQueryResult {
            rows_affected: done.changes,
            last_insert_id: Some(done.last_insert_rowid),
        }
    }
}

impl vstd::std_specs::convert::FromSpecImpl<SqliteQueryResult> for AnyQueryResult {
    open spec fn obeys_from_spec() -> bool {
        true
    }

    open spec fn from_spec(done: SqliteQueryResult) -> AnyQueryResult {
        AnyQueryResult {
            rows_affected: done.changes,
            last_insert_id: Some(done.last_insert_rowid),
        }
    }
}

} // verus!
