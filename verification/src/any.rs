//! The backend-erased outcome: one record wide enough to represent the
//! outcome of any supported engine. Its identifier field is an optional
//! signed 64-bit value: wide enough for a SQLite-like row id as-is, for a
//! MySQL-like unsigned id up to the signed maximum (larger ones wrap, the one
//! accepted lossy edge), and absent both for a Postgres-like outcome, which
//! carries no identifier, and for an explicitly absent one.

use vstd::prelude::*;
use crate::fold::{lemma_sum_of_nonneg, lemma_sum_of_take_le, lemma_sum_of_take_step, sum_of};
use crate::query_result::{HasLastInsertId, HasRowsAffected};

verus! {

/// The outcome of one statement as seen by a caller compiled against the
/// generic "any backend" mode: the affected-row count and the generated
/// identifier, if the active engine reported one.
#[derive(Debug)]
pub struct AnyQueryResult {
    pub rows_affected: u64,
    pub last_insert_id: Option<i64>,
}

/// The affected-row counts of a sequence of outcomes, in order.
pub open spec fn rows_of(s: Seq<AnyQueryResult>) -> Seq<u64> {
    s.map_values(|o: AnyQueryResult| o.rows_affected)
}

/// The identifier after folding `s` into an accumulator whose identifier is
/// `init`: the last element's identifier, or `init` when `s` is empty.
pub open spec fn last_id(init: Option<i64>, s: Seq<AnyQueryResult>) -> Option<i64> {
    if s.len() == 0 {
        init
    } else {
        s.last().last_insert_id
    }
}

/// The accumulator state after merging `s` into `acc`: row counts sum, and
/// the generated identifier of the last element wins.
pub open spec fn merged(acc: AnyQueryResult, s: Seq<AnyQueryResult>) -> AnyQueryResult {
    AnyQueryResult {
        rows_affected: (acc.rows_affected + sum_of(rows_of(s))) as u64,
        last_insert_id: last_id(acc.last_insert_id, s),
    }
}

/// Merging zero elements leaves any accumulator unchanged; in particular a
/// default-constructed one keeps its zero state: no rows, identifier absent.
pub proof fn lemma_empty_merge_identity(acc: AnyQueryResult)
    ensures
        merged(acc, Seq::<AnyQueryResult>::empty()) == acc,
{
}

impl Default for AnyQueryResult {
    /// The zero outcome: no rows affected, identifier absent.
    fn default() -> (r: Self)
        ensures
            r.rows_affected == 0,
            r.last_insert_id is None,
    {
        AnyQueryResult { rows_affected: 0, last_insert_id: None }
    }
}

impl HasRowsAffected for AnyQueryResult {
    open spec fn spec_rows_affected(&self) -> u64 {
        self.rows_affected
    }

    fn rows_affected(&self) -> u64 {
        self.rows_affected
    }
}

impl HasLastInsertId<Option<i64>> for AnyQueryResult {
    open spec fn spec_last_insert_id(&self) -> Option<i64> {
        self.last_insert_id
    }

    fn last_insert_id(&self) -> Option<i64> {
        self.last_insert_id
    }
}

impl AnyQueryResult {
    /// Folds the outcomes of `others` into `self` in order: the affected-row
    /// counts add up exactly, and the generated identifier of the last
    /// element overwrites the accumulator's, whatever its value.
    pub fn extend(&mut self, others: Vec<AnyQueryResult>)
        requires
            old(self).rows_affected + sum_of(rows_of(others@)) <= u64::MAX,
        ensures
            *final(self) == merged(*old(self), others@),
            final(self).rows_affected == old(self).rows_affected + sum_of(rows_of(others@)),
            others@.len() > 0 ==> final(self).last_insert_id == others@.last().last_insert_id,
            others@.len() == 0 ==> *final(self) == *old(self),
    {
        let n: usize = others.len();
        let mut i: usize = 0;
        while i < n
            invariant
                n == others@.len(),
                i <= n,
                old(self).rows_affected + sum_of(rows_of(others@)) <= u64::MAX,
                self.rows_affected == old(self).rows_affected + sum_of(rows_of(others@).take(i as int)),
                self.last_insert_id == last_id(old(self).last_insert_id, others@.take(i as int)),
            decreases n - i,
        {
            proof {
                lemma_sum_of_take_step(rows_of(others@), i as int);
                lemma_sum_of_take_le(rows_of(others@), i as int + 1);
                lemma_sum_of_nonneg(rows_of(others@).take(i as int));
                assert(others@.take(i as int + 1).last() == others@[i as int]);
            }
            self.rows_affected = self.rows_affected + others[i].rows_affected;
            self.last_insert_id = others[i].last_insert_id;
            i = i + 1;
        }
        proof {
            lemma_sum_of_nonneg(rows_of(others@));
            assert(rows_of(others@).take(n as int) =~= rows_of(others@));
            assert(others@.take(n as int) =~= others@);
        }
    }
}

} // verus!
