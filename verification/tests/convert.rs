use query_outcome::any::AnyQueryResult;
use query_outcome::mysql::MySqlQueryResult;
use query_outcome::postgres::PgQueryResult;
use query_outcome::query_result::{HasLastInsertId, HasRowsAffected};
use query_outcome::sqlite::SqliteQueryResult;

#[test]
fn postgres_converts_to_absent_id() {
    let done = PgQueryResult { rows_affected: 7 };
    let r = AnyQueryResult::from(done);
    assert_eq!(r.rows_affected(), 7);
    assert_eq!(r.last_insert_id(), None);
}

#[test]
fn sqlite_converts_with_present_negative_id() {
    let done = SqliteQueryResult { changes: 3, last_insert_rowid: -42 };
    let r = AnyQueryResult::from(done);
    assert_eq!(r.rows_affected(), 3);
    assert_eq!(r.last_insert_id(), Some(-42));
}

#[test]
fn mysql_converts_with_present_id() {
    let done = MySqlQueryResult { rows_affected: 5, last_insert_id: 10 };
    let r = AnyQueryResult::from(done);
    assert_eq!(r.rows_affected(), 5);
    assert_eq!(r.last_insert_id(), Some(10));
}

#[test]
fn mysql_id_above_signed_max_wraps() {
    // The one accepted lossy edge: an unsigned id beyond the signed range
    // wraps into the negative values.
    let done = MySqlQueryResult { rows_affected: 1, last_insert_id: u64::MAX };
    let r = AnyQueryResult::from(done);
    assert_eq!(r.rows_affected(), 1);
    assert_eq!(r.last_insert_id(), Some(-1));
}

#[test]
fn converted_outcomes_merge_in_generic_mode() {
    let a = AnyQueryResult::from(MySqlQueryResult { rows_affected: 1, last_insert_id: 9 });
    let b = AnyQueryResult::from(PgQueryResult { rows_affected: 2 });
    let mut acc = AnyQueryResult::default();
    acc.extend(vec![a, b]);
    assert_eq!(acc.rows_affected(), 3);
    assert_eq!(acc.last_insert_id(), None);
}

#[test]
fn postgres_id_accessor_is_always_absent() {
    let done = PgQueryResult { rows_affected: 9 };
    let id: Option<()> = done.last_insert_id();
    assert_eq!(id, None);
}

#[test]
fn defaults_are_zero() {
    let m = MySqlQueryResult::default();
    assert_eq!(m.rows_affected(), 0);
    assert_eq!(m.last_insert_id(), 0);
    let p = PgQueryResult::default();
    assert_eq!(p.rows_affected(), 0);
    let s = SqliteQueryResult::default();
    assert_eq!(s.rows_affected(), 0);
    assert_eq!(s.last_insert_id(), 0);
    let a = AnyQueryResult::default();
    assert_eq!(a.rows_affected(), 0);
    assert_eq!(a.last_insert_id(), None);
}
