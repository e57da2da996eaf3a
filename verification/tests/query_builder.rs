//! The staged query builder: range conversion, cardinality contracts of
//! `one` and `optional`, eager and streaming decoding.

use rorm::condition::FieldRef;
use rorm::query::{QueryBuilder, QueryError};
use rorm::row::{DirectDecoder, Row};
use rorm::sql::Dialect;
use rorm::value::{DbType, Value};

fn id_decoder() -> DirectDecoder<i64> {
    DirectDecoder::new("id".to_string(), 0)
}

fn builder() -> QueryBuilder<DirectDecoder<i64>, (), ()> {
    QueryBuilder::new("user".to_string(), vec!["id".to_string()], id_decoder())
}

fn id_row(id: i64) -> Row {
    let mut row = Row::new();
    row.push("id".to_string(), Value::I64(id));
    row
}

#[test]
fn range_exclusive_becomes_limit_and_offset() {
    // Scenario: `range(2..7)` gives limit 5 at offset 2.
    let q = builder().range(2u64..7u64);
    assert_eq!(q.lim_off.limit, 5);
    assert_eq!(q.lim_off.offset, 2);
}

#[test]
fn range_inclusive_matches_the_exclusive_form() {
    // Scenario: `range(2..=6)` gives the same limit 5 at offset 2.
    let q = builder().range(2u64..=6u64);
    assert_eq!(q.lim_off.limit, 5);
    assert_eq!(q.lim_off.offset, 2);
}

#[test]
fn range_renders_as_limit_offset() {
    let q = builder().range(2u64..7u64);
    let (sql, _) = q.build(Dialect::SQLite).unwrap();
    assert_eq!(sql, "SELECT \"id\" FROM \"user\" LIMIT 5 OFFSET 2;");
}

#[test]
fn limit_then_offset() {
    let q = builder().limit(10).offset(4);
    let (sql, _) = q.build(Dialect::Postgres).unwrap();
    assert_eq!(sql, "SELECT \"id\" FROM \"user\" LIMIT 10 OFFSET 4;");
}

#[test]
fn offset_alone_is_unsupported_on_mysql() {
    let q = builder().offset(4);
    assert!(q.build(Dialect::MySQL).is_err());
    let q = builder().offset(4);
    let (sql, _) = q.build(Dialect::SQLite).unwrap();
    assert_eq!(sql, "SELECT \"id\" FROM \"user\" LIMIT -1 OFFSET 4;");
}

#[test]
fn condition_stage_renders_where() {
    let cond = FieldRef::new("id".to_string(), DbType::Int64).equals(7i64).unwrap();
    let q = builder().condition(cond).limit(2);
    let (sql, params) = q.build(Dialect::SQLite).unwrap();
    assert_eq!(sql, "SELECT \"id\" FROM \"user\" WHERE \"id\" = ? LIMIT 2;");
    assert!(matches!(params[0], Value::I64(7)));
}

#[test]
fn optional_of_no_row_is_none() {
    let r = builder().optional(&vec![]);
    assert!(matches!(r, Ok(None)));
}

#[test]
fn optional_of_one_row_decodes_it() {
    let r = builder().optional(&vec![id_row(5)]);
    assert!(matches!(r, Ok(Some(5))));
}

#[test]
fn optional_of_two_rows_is_too_many() {
    // Two rows match the condition: the result is an error, not the first
    // row silently returned.
    let r = builder().optional(&vec![id_row(1), id_row(2)]);
    assert!(matches!(r, Err(QueryError::TooMany)));
}

#[test]
fn one_of_no_row_is_not_found() {
    let r = builder().one(&vec![]);
    assert!(matches!(r, Err(QueryError::NotFound)));
}

#[test]
fn one_of_one_row_decodes_it() {
    let r = builder().one(&vec![id_row(9)]);
    assert!(matches!(r, Ok(9)));
}

#[test]
fn one_of_two_rows_is_too_many() {
    let r = builder().one(&vec![id_row(1), id_row(2)]);
    assert!(matches!(r, Err(QueryError::TooMany)));
}

#[test]
fn all_decodes_every_row_in_order() {
    let rows = vec![id_row(1), id_row(2), id_row(3)];
    let out = builder().all(&rows).unwrap();
    assert_eq!(out, vec![1, 2, 3]);
}

#[test]
fn all_aborts_on_the_first_bad_row() {
    let mut bad = Row::new();
    bad.push("id".to_string(), Value::String("oops".to_string()));
    let rows = vec![id_row(1), bad, id_row(3)];
    let r = builder().all(&rows);
    assert!(matches!(r, Err(QueryError::Decode(_))));
}

#[test]
fn stream_is_a_single_pass_over_the_rows() {
    let rows = vec![id_row(1), id_row(2)];
    let mut stream = builder().stream(rows);
    assert_eq!(stream.next().unwrap().unwrap(), 1);
    assert_eq!(stream.next().unwrap().unwrap(), 2);
    assert!(stream.next().is_none());
    assert!(stream.next().is_none());
}

#[test]
fn stream_decodes_each_row_fully_or_not_at_all() {
    let mut bad = Row::new();
    bad.push("id".to_string(), Value::Bool(false));
    let rows = vec![id_row(1), bad, id_row(3)];
    let mut stream = builder().stream(rows);
    assert_eq!(stream.next().unwrap().unwrap(), 1);
    assert!(stream.next().unwrap().is_err());
    assert_eq!(stream.next().unwrap().unwrap(), 3);
    assert!(stream.next().is_none());
}

#[test]
fn order_by_renders_between_where_and_limit() {
    let cond = FieldRef::new("id".to_string(), DbType::Int64).greater(0i64).unwrap();
    let q = builder().condition(cond).order_asc("id".to_string()).limit(3);
    let (sql, _) = q.build(Dialect::SQLite).unwrap();
    assert_eq!(
        sql,
        "SELECT \"id\" FROM \"user\" WHERE \"id\" > ? ORDER BY \"id\" LIMIT 3;"
    );
}

#[test]
fn later_order_columns_rank_lower() {
    let q = builder().order_asc("id".to_string()).order_asc("name".to_string());
    let (sql, _) = q.build(Dialect::SQLite).unwrap();
    assert_eq!(sql, "SELECT \"id\" FROM \"user\" ORDER BY \"id\", \"name\";");
}
