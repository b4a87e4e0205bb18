//! Outcome of a data-modification statement against the Postgres-like
//! engine, which reports only an affected-row count: it exposes no single
//! generated-identifier concept, so the identifier accessor is a typed
//! "always absent" marker.

use vstd::prelude::*;
use crate::any::AnyQueryResult;
use crate::fold::{lemma_sum_of_nonneg, lemma_sum_of_take_le, lemma_sum_of_take_step, sum_of};
use crate::query_result::{HasLastInsertId, HasRowsAffected};

verus! {

/// What the Postgres-like engine reports after one statement: how many rows
/// it touched, and nothing else.
#[derive(Debug)]
pub struct PgQueryResult {
    pub rows_affected: u64,
}

/// The affected-row counts of a sequence of outcomes, in order.
pub open spec fn rows_of(s: Seq<PgQueryResult>) -> Seq<u64> {
    s.map_values(|o: PgQueryResult| o.rows_affected)
}

/// The accumulator state after merging `s` into `acc`: row counts sum; there
/// is no identifier to carry.
pub open spec fn merged(acc: PgQueryResult, s: Seq<PgQueryResult>) -> PgQueryResult {
    PgQueryResult { rows_affected: (acc.rows_affected + sum_of(rows_of(s))) as u64 }
}

/// Merging zero elements leaves any accumulator unchanged; in particular a
/// default-constructed one keeps its zero row count.
pub proof fn lemma_empty_merge_identity(acc: PgQueryResult)
    ensures
        merged(acc, Seq::<PgQueryResult>::empty()) == acc,
{
}

impl Default for PgQueryResult {
    /// The zero outcome: no rows affected.
    fn default() -> (r: Self)
        ensures
            r.rows_affected == 0,
    {
        PgQueryResult { rows_affected: 0 }
    }
}

impl HasRowsAffected for PgQueryResult {
    open spec fn spec_rows_affected(&self) -> u64 {
        self.rows_affected
    }

    fn rows_affected(&self) -> u64 {
        self.rows_affected
    }
}

impl HasLastInsertId<Option<()>> for PgQueryResult {
    open spec fn spec_last_insert_id(&self) -> Option<()> {
        None
    }

    fn last_insert_id(&self) -> (r: Option<()>)
        ensures
            r is None,
    {
        None
    }
}

impl PgQueryResult {
    /// Folds the outcomes of `others` into `self` in order: the affected-row
    /// counts add up exactly.
    pub fn extend(&mut self, others: Vec<PgQueryResult>)
        requires
            old(self).rows_affected + sum_of(rows_of(others@)) <= u64::MAX,
        ensures
            *final(self) == merged(*old(self), others@),
            final(self).rows_affected == old(self).rows_affected + sum_of(rows_of(others@)),
            others@.len() == 0 ==> *final(self) == *old(self),
    {
        let n: usize = others.len();
        let mut i: usize = 0;
        while i < n
            invariant
                n == others@.len(),
                i <= n,
                old(self).rows_affected + sum_of(rows_of(others@)) <= u64::MAX,
                self.rows_affected == old(self).rows_affected + sum_of(rows_of(others@).take(i as int)),
            decreases n - i,
        {
            proof {
                lemma_sum_of_take_step(rows_of(others@), i as int);
                lemma_sum_of_take_le(rows_of(others@), i as int + 1);
                lemma_sum_of_nonneg(rows_of(others@).take(i as int));
            }
            self.rows_affected = self.rows_affected + others[i].rows_affected;
            i = i + 1;
        }
        proof {
            lemma_sum_of_nonneg(rows_of(others@));
            assert(rows_of(others@).take(n as int) =~= rows_of(others@));
        }
    }
}

impl From<PgQueryResult> for AnyQueryResult {
    /// Converts into the backend-erased outcome: the row count is copied and
    /// the identifier is absent, since this engine never carries one. Total:
    /// every input has exactly this one representation.
    fn from(done: PgQueryResult) -> (r: Self)
        ensures
            r.rows_affected == done.rows_affected,
            r.last_insert_id is None,
    {
        AnyQueryResult { rows_affected: done.rows_affected, last_insert_id: None }
    }
}

impl vstd::std_specs::convert::FromSpecImpl<PgQueryResult> for AnyQueryResult {
    open spec fn obeys_from_spec() -> bool {
        true
    }

    open spec fn from_spec(done: PgQueryResult) -> AnyQueryResult {
        AnyQueryResult { rows_affected: done.rows_affected, last_insert_id: None }
    }
}

} // verus!
