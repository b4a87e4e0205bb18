//! Backend-agnostic outcomes of data-modification statements.
//!
//! Each supported database engine reports the outcome of an insert, update or
//! delete in its own shape: the row count, and a generated identifier whose
//! presence and type differ per engine. This crate holds one record type per
//! engine, a generic record wide enough to represent any of them, the
//! conversions into that generic record, and the merge operation that folds
//! the outcomes of several statements into one running total: row counts add
//! up, and the identifier of the last outcome wins.

pub mod any;
pub mod fold;
pub mod mysql;
pub mod postgres;
pub mod query_result;
pub mod sqlite;
