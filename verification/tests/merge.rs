use query_outcome::any::AnyQueryResult;
use query_outcome::mysql::MySqlQueryResult;
use query_outcome::postgres::PgQueryResult;
use query_outcome::query_result::{HasLastInsertId, HasRowsAffected};
use query_outcome::sqlite::SqliteQueryResult;

#[test]
fn additivity_mysql() {
    let mut acc = MySqlQueryResult::default();
    let batch = vec![
        MySqlQueryResult { rows_affected: 4, last_insert_id: 1 },
        MySqlQueryResult { rows_affected: 0, last_insert_id: 2 },
        MySqlQueryResult { rows_affected: 9, last_insert_id: 3 },
    ];
    acc.extend(batch);
    assert_eq!(acc.rows_affected(), 13);
}

#[test]
fn additivity_postgres() {
    let mut acc = PgQueryResult::default();
    let batch = vec![
        PgQueryResult { rows_affected: 2 },
        PgQueryResult { rows_affected: 3 },
        PgQueryResult { rows_affected: 5 },
        PgQueryResult { rows_affected: 7 },
    ];
    acc.extend(batch);
    assert_eq!(acc.rows_affected(), 17);
}

#[test]
fn additivity_sqlite() {
    let mut acc = SqliteQueryResult::default();
    let batch = vec![
        SqliteQueryResult { changes: 1, last_insert_rowid: 1 },
        SqliteQueryResult { changes: 1, last_insert_rowid: 2 },
    ];
    acc.extend(batch);
    assert_eq!(acc.rows_affected(), 2);
}

#[test]
fn additivity_any() {
    let mut acc = AnyQueryResult::default();
    let batch = vec![
        AnyQueryResult { rows_affected: 10, last_insert_id: None },
        AnyQueryResult { rows_affected: 20, last_insert_id: Some(5) },
    ];
    acc.extend(batch);
    assert_eq!(acc.rows_affected(), 30);
}

#[test]
fn additivity_accumulates_across_calls() {
    let mut acc = MySqlQueryResult::default();
    acc.extend(vec![MySqlQueryResult { rows_affected: 4, last_insert_id: 7 }]);
    acc.extend(vec![MySqlQueryResult { rows_affected: 6, last_insert_id: 8 }]);
    assert_eq!(acc.rows_affected(), 10);
    assert_eq!(acc.last_insert_id(), 8);
}

#[test]
fn last_wins_mysql_trailing_zero_id() {
    // A trailing zero-id element still overwrites a prior non-zero id.
    let mut acc = MySqlQueryResult::default();
    let batch = vec![
        MySqlQueryResult { rows_affected: 1, last_insert_id: 10 },
        MySqlQueryResult { rows_affected: 2, last_insert_id: 11 },
        MySqlQueryResult { rows_affected: 5, last_insert_id: 0 },
    ];
    acc.extend(batch);
    assert_eq!(acc.rows_affected(), 8);
    assert_eq!(acc.last_insert_id(), 0);
}

#[test]
fn last_wins_sqlite_negative_rowid() {
    let mut acc = SqliteQueryResult::default();
    let batch = vec![
        SqliteQueryResult { changes: 1, last_insert_rowid: 99 },
        SqliteQueryResult { changes: 1, last_insert_rowid: -5 },
    ];
    acc.extend(batch);
    assert_eq!(acc.rows_affected(), 2);
    assert_eq!(acc.last_insert_id(), -5);
}

#[test]
fn last_wins_any_trailing_absent_id() {
    // An absent identifier in the last element overwrites a present one.
    let mut acc = AnyQueryResult::default();
    let batch = vec![
        AnyQueryResult { rows_affected: 1, last_insert_id: Some(42) },
        AnyQueryResult { rows_affected: 1, last_insert_id: None },
    ];
    acc.extend(batch);
    assert_eq!(acc.rows_affected(), 2);
    assert_eq!(acc.last_insert_id(), None);
}

#[test]
fn empty_merge_identity_mysql() {
    let mut acc = MySqlQueryResult::default();
    acc.extend(vec![]);
    assert_eq!(acc.rows_affected(), 0);
    assert_eq!(acc.last_insert_id(), 0);
}

#[test]
fn empty_merge_identity_postgres() {
    let mut acc = PgQueryResult::default();
    acc.extend(vec![]);
    assert_eq!(acc.rows_affected(), 0);
}

#[test]
fn empty_merge_identity_sqlite() {
    let mut acc = SqliteQueryResult::default();
    acc.extend(vec![]);
    assert_eq!(acc.rows_affected(), 0);
    assert_eq!(acc.last_insert_id(), 0);
}

#[test]
fn empty_merge_keeps_nonzero_accumulator() {
    let mut acc = MySqlQueryResult { rows_affected: 6, last_insert_id: 44 };
    acc.extend(vec![]);
    assert_eq!(acc.rows_affected(), 6);
    assert_eq!(acc.last_insert_id(), 44);
}

#[test]
fn fresh_any_accumulator_reads_zero_and_none() {
    let mut acc = AnyQueryResult::default();
    acc.extend(vec![]);
    assert_eq!(acc.rows_affected(), 0);
    assert_eq!(acc.last_insert_id(), None);
}
