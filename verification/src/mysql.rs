//! Outcome of a data-modification statement against the MySQL-like engine,
//! which reports an affected-row count and an always-present (possibly zero)
//! unsigned auto-increment identifier.

use vstd::prelude::*;
use crate::any::AnyQueryResult;
use crate::fold::{lemma_sum_of_nonneg, lemma_sum_of_take_le, lemma_sum_of_take_step, sum_of};
use crate::query_result::{HasLastInsertId, HasRowsAffected};

verus! {

/// What the MySQL-like engine reports after one statement: how many rows it
/// touched and the auto-increment identifier it generated (zero when the
/// statement generated none).
#[derive(Debug)]
pub struct MySqlQueryResult {
    pub rows_affected: u64,
    pub last_insert_id: u64,
}

/// The affected-row counts of a sequence of outcomes, in order.
pub open spec fn rows_of(s: Seq<MySqlQueryResult>) -> Seq<u64> {
    s.map_values(|o: MySqlQueryResult| o.rows_affected)
}

/// The identifier after folding `s` into an accumulator whose identifier is
/// `init`: the last element's identifier, or `init` when `s` is empty.
pub open spec fn last_id(init: u64, s: Seq<MySqlQueryResult>) -> u64 {
    if s.len() == 0 {
        init
    } else {
        s.last().last_insert_id
    }
}

/// The accumulator state after merging `s` into `acc`: row counts sum, and
/// the generated identifier of the last element wins.
pub open spec fn merged(acc: MySqlQueryResult, s: Seq<MySqlQueryResult>) -> MySqlQueryResult {
    MySqlQueryResult {
        rows_affected: (acc.rows_affected + sum_of(rows_of(s))) as u64,
        last_insert_id: last_id(acc.last_insert_id, s),
    }
}

/// Merging zero elements leaves any accumulator unchanged; in particular a
/// default-constructed one keeps its zero state.
pub proof fn lemma_empty_merge_identity(acc: MySqlQueryResult)
    ensures
        merged(acc, Seq::<MySqlQueryResult>::empty()) == acc,
{
}

impl Default for MySqlQueryResult {
    /// The zero outcome: no rows affected, identifier zero.
    fn default() -> (r: Self)
        ensures
            r.rows_affected == 0,
            r.last_insert_id == 0,
    {
        MySqlQueryResult { rows_affected: 0, last_insert_id: 0 }
    }
}

impl HasRowsAffected for MySqlQueryResult {
    open spec fn spec_rows_affected(&self) -> u64 {
        self.rows_affected
    }

    fn rows_affected(&self) -> u64 {
        self.rows_affected
    }
}

impl HasLastInsertId<u64> for MySqlQueryResult {
    open spec fn spec_last_insert_id(&self) -> u64 {
        self.last_insert_id
    }

    fn last_insert_id(&self) -> u64 {
        self.last_insert_id
    }
}

impl MySqlQueryResult {
    /// Folds the outcomes of `others` into `self` in order: the affected-row
    /// counts add up exactly, and the generated identifier of the last
    /// element overwrites the accumulator's, whatever its value.
    pub fn extend(&mut self, others: Vec<MySqlQueryResult>)
        requires
            old(self).rows_affected + sum_of(rows_of(others@)) <= u64::MAX,
        ensures
            *final(self) == merged(*old(self), others@),
            final(self).rows_affected == old(self).rows_affected + sum_of(rows_of(others@)),
            others@.len() > 0 ==> final(self).last_insert_id == others@.last().last_insert_id,
            others@.len() == 0 ==> *final(self) == *old(self),
    {
        let n: usize = others.len();
        let mut i: usize = 0;
        while i < n
            invariant
                n == others@.len(),
                i <= n,
                old(self).rows_affected + sum_of(rows_of(others@)) <= u64::MAX,
                self.rows_affected == old(self).rows_affected + sum_of(rows_of(others@).take(i as int)),
                self.last_insert_id == last_id(old(self).last_insert_id, others@.take(i as int)),
            decreases n - i,
        {
            proof {
                lemma_sum_of_take_step(rows_of(others@), i as int);
                lemma_sum_of_take_le(rows_of(others@), i as int + 1);
                lemma_sum_of_nonneg(rows_of(others@).take(i as int));
                assert(others@.take(i as int + 1).last() == others@[i as int]);
            }
            self.rows_affected = self.rows_affected + others[i].rows_affected;
            self.last_insert_id = others[i].last_insert_id;
            i = i + 1;
        }
        proof {
            lemma_sum_of_nonneg(rows_of(others@));
            assert(rows_of(others@).take(n as int) =~= rows_of(others@));
            assert(others@.take(n as int) =~= others@);
        }
    }
}

impl From<MySqlQueryResult> for AnyQueryResult {
    /// Converts into the backend-erased outcome: the row count is copied and
    /// the identifier is widened into the signed 64-bit field, present.
    /// Total: every input has a representation. An identifier above the
    /// signed maximum wraps into the negative range (two's-complement
    /// truncation), the one accepted lossy edge; up to the signed maximum the
    /// value is kept exactly.
    fn from(done: MySqlQueryResult) -> (r: Self)
        ensures
            r.rows_affected == done.rows_affected,
            r.last_insert_id == Some(done.last_insert_id as i64),
            done.last_insert_id <= i64::MAX ==> (r.last_insert_id matches Some(id) && id == done.last_insert_id),
    {
        AnyQueryResult {
            rows_affected: done.rows_affected,
            last_insert_id: Some(#[verifier::truncate] (done.last_insert_id as i64)),
        }
    }
}

impl vstd::std_specs::convert::FromSpecImpl<MySqlQueryResult> for AnyQueryResult {
    open spec fn obeys_from_spec() -> bool {
        true
    }

    open spec fn from_spec(done: MySqlQueryResult) -> AnyQueryResult {
        AnyQueryResult {
            rows_affected: done.rows_affected,
            last_insert_id: Some(done.last_insert_id as i64),
        }
    }
}

} // verus!
