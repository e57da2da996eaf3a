//! SQL rendering: exact dialect text, placeholder counting, idempotence,
//! and the empty list predicates.

use rorm::annotations::Annotations;
use rorm::condition::{BinaryOp, Condition, FieldRef, UnaryOp};
use rorm::registry::{FieldKind, FieldMeta, ModelDescriptor, Registry};
use rorm::sql::{build_select, Dialect, LimOff, LimitClause, SQLDelete};
use rorm::value::{DbType, Value};

fn name_ref() -> FieldRef {
    FieldRef::new("name".to_string(), DbType::VarChar)
}

fn id_ref() -> FieldRef {
    FieldRef::new("id".to_string(), DbType::Int64)
}

fn user_columns() -> Vec<String> {
    vec!["id".to_string(), "name".to_string()]
}

fn count_char(s: &str, c: char) -> usize {
    s.chars().filter(|x| *x == c).count()
}

#[test]
fn select_user_where_name_equals_bob_sqlite() {
    // Scenario: model `User { id: primary key int64, name: string with
    // max_length 255 }`, condition `name = "Bob"`, SQLite dialect.
    let mut reg = Registry::new();
    let mut id_annos = Annotations::empty();
    id_annos.primary_key = true;
    let mut name_annos = Annotations::empty();
    name_annos.max_length = Some(255);
    reg.register(ModelDescriptor {
        name: "user".to_string(),
        fields: vec![
            FieldMeta {
                name: "id".to_string(),
                db_type: DbType::Int64,
                kind: FieldKind::Scalar,
                annotations: id_annos,
                source: None,
            },
            FieldMeta {
                name: "name".to_string(),
                db_type: DbType::VarChar,
                kind: FieldKind::Scalar,
                annotations: name_annos,
                source: None,
            },
        ],
        source: None,
    })
    .unwrap();
    let field = reg.resolve("user", "name").unwrap();
    let cond = FieldRef::new(field.name.clone(), field.db_type).equals("Bob").unwrap();
    let (sql, params) = build_select(
        Dialect::SQLite,
        "user",
        &user_columns(),
        &Some(cond),
        &Vec::new(),
        &LimOff::All,
    )
    .unwrap();
    assert_eq!(sql, "SELECT \"id\", \"name\" FROM \"user\" WHERE \"name\" = ?;");
    assert_eq!(params.len(), 1);
    assert!(matches!(&params[0], Value::String(s) if s == "Bob"));
}

#[test]
fn select_without_condition() {
    let (sql, params) =
        build_select(Dialect::SQLite, "user", &user_columns(), &None, &Vec::new(), &LimOff::All).unwrap();
    assert_eq!(sql, "SELECT \"id\", \"name\" FROM \"user\";");
    assert!(params.is_empty());
}

#[test]
fn postgres_numbers_placeholders() {
    let cond = Condition::Binary(
        BinaryOp::Equals,
        Box::new(Condition::Conjunction(vec![
            name_ref().equals("a").unwrap(),
            name_ref().not_equals("b").unwrap(),
        ])),
        Box::new(Condition::Value(Value::Bool(true))),
    );
    let (sql, params) = build_select(
        Dialect::Postgres,
        "user",
        &user_columns(),
        &Some(cond),
        &Vec::new(),
        &LimOff::All,
    )
    .unwrap();
    assert_eq!(
        sql,
        "SELECT \"id\", \"name\" FROM \"user\" WHERE (\"name\" = $1 AND \"name\" <> $2) = $3;"
    );
    assert_eq!(params.len(), 3);
}

#[test]
fn mysql_quotes_with_backticks() {
    let cond = name_ref().equals("Bob").unwrap();
    let (sql, _) = build_select(
        Dialect::MySQL,
        "user",
        &user_columns(),
        &Some(cond),
        &Vec::new(),
        &LimOff::All,
    )
    .unwrap();
    assert_eq!(sql, "SELECT `id`, `name` FROM `user` WHERE `name` = ?;");
}

#[test]
fn placeholder_count_equals_value_leaves() {
    // A tree with five non-identifier value leaves, depth first.
    let cond = Condition::Conjunction(vec![
        name_ref().equals("a").unwrap(),
        id_ref().between(1i64, 5i64).unwrap(),
        Condition::Disjunction(vec![
            name_ref().like("x%").unwrap(),
            Condition::Unary(UnaryOp::Not, Box::new(id_ref().equals(9i64).unwrap())),
        ]),
    ]);
    let (sql, params) = build_select(
        Dialect::SQLite,
        "user",
        &user_columns(),
        &Some(cond),
        &Vec::new(),
        &LimOff::All,
    )
    .unwrap();
    assert_eq!(params.len(), 5);
    assert_eq!(count_char(&sql, '?'), params.len());
}

#[test]
fn rerendering_is_idempotent() {
    let make = || {
        Condition::Conjunction(vec![
            name_ref().equals("a").unwrap(),
            id_ref().less(7i64).unwrap(),
        ])
    };
    let r1 = build_select(
        Dialect::Postgres,
        "user",
        &user_columns(),
        &Some(make()),
        &Vec::new(),
        &LimOff::All,
    )
    .unwrap();
    let r2 = build_select(
        Dialect::Postgres,
        "user",
        &user_columns(),
        &Some(make()),
        &Vec::new(),
        &LimOff::All,
    )
    .unwrap();
    assert_eq!(r1.0, r2.0);
    assert_eq!(r1.1.len(), r2.1.len());
}

#[test]
fn in_list_of_nothing_renders_always_false() {
    let empty: Vec<i64> = Vec::new();
    let cond = id_ref().in_list(&empty).unwrap();
    let (sql, params) = build_select(
        Dialect::SQLite,
        "user",
        &user_columns(),
        &Some(cond),
        &Vec::new(),
        &LimOff::All,
    )
    .unwrap();
    assert_eq!(sql, "SELECT \"id\", \"name\" FROM \"user\" WHERE (1 = 0);");
    assert!(params.is_empty());
}

#[test]
fn not_in_of_nothing_renders_always_true() {
    let empty: Vec<i64> = Vec::new();
    let cond = id_ref().not_in(&empty).unwrap();
    let (sql, params) = build_select(
        Dialect::SQLite,
        "user",
        &user_columns(),
        &Some(cond),
        &Vec::new(),
        &LimOff::All,
    )
    .unwrap();
    assert_eq!(sql, "SELECT \"id\", \"name\" FROM \"user\" WHERE (1 = 1);");
    assert!(params.is_empty());
}

#[test]
fn in_list_expands_to_disjunction_of_equalities() {
    let cond = id_ref().in_list(&vec![1i64, 2i64]).unwrap();
    let (sql, params) = build_select(
        Dialect::SQLite,
        "user",
        &user_columns(),
        &Some(cond),
        &Vec::new(),
        &LimOff::All,
    )
    .unwrap();
    assert_eq!(
        sql,
        "SELECT \"id\", \"name\" FROM \"user\" WHERE (\"id\" = ? OR \"id\" = ?);"
    );
    assert_eq!(params.len(), 2);
    assert!(matches!(params[0], Value::I64(1)));
    assert!(matches!(params[1], Value::I64(2)));
}

#[test]
fn between_renders_with_two_placeholders() {
    let cond = id_ref().between(2i64, 7i64).unwrap();
    let (sql, params) = build_select(
        Dialect::SQLite,
        "user",
        &user_columns(),
        &Some(cond),
        &Vec::new(),
        &LimOff::All,
    )
    .unwrap();
    assert_eq!(
        sql,
        "SELECT \"id\", \"name\" FROM \"user\" WHERE \"id\" BETWEEN ? AND ?;"
    );
    assert_eq!(params.len(), 2);
}

#[test]
fn is_null_renders_without_placeholder() {
    let cond = name_ref().is_null();
    let (sql, params) = build_select(
        Dialect::SQLite,
        "user",
        &user_columns(),
        &Some(cond),
        &Vec::new(),
        &LimOff::All,
    )
    .unwrap();
    assert_eq!(sql, "SELECT \"id\", \"name\" FROM \"user\" WHERE \"name\" IS NULL;");
    assert!(params.is_empty());
}

#[test]
fn limit_and_offset_clause_sqlite() {
    let (sql, _) = build_select(
        Dialect::SQLite,
        "user",
        &user_columns(),
        &None,
        &Vec::new(),
        &LimOff::Limit(LimitClause { limit: 5, offset: Some(2) }),
    )
    .unwrap();
    assert_eq!(sql, "SELECT \"id\", \"name\" FROM \"user\" LIMIT 5 OFFSET 2;");
}

#[test]
fn offset_without_limit_sqlite() {
    let (sql, _) = build_select(
        Dialect::SQLite,
        "user",
        &user_columns(),
        &None,
        &Vec::new(),
        &LimOff::Offset(3),
    )
    .unwrap();
    assert_eq!(sql, "SELECT \"id\", \"name\" FROM \"user\" LIMIT -1 OFFSET 3;");
}

#[test]
fn offset_without_limit_postgres() {
    let (sql, _) = build_select(
        Dialect::Postgres,
        "user",
        &user_columns(),
        &None,
        &Vec::new(),
        &LimOff::Offset(3),
    )
    .unwrap();
    assert_eq!(sql, "SELECT \"id\", \"name\" FROM \"user\" OFFSET 3;");
}

#[test]
fn offset_without_limit_is_unsupported_on_mysql() {
    let r = build_select(
        Dialect::MySQL,
        "user",
        &user_columns(),
        &None,
        &Vec::new(),
        &LimOff::Offset(3),
    );
    assert!(matches!(r, Err(e) if e.dialect == Dialect::MySQL));
}

#[test]
fn delete_renders_where_and_limit() {
    let cond = name_ref().equals("Bob").unwrap();
    let (sql, params) = SQLDelete::new(Dialect::SQLite, "user".to_string())
        .where_clause(cond)
        .limit(10)
        .build()
        .unwrap();
    assert_eq!(sql, "DELETE FROM \"user\" WHERE \"name\" = ? LIMIT 10;");
    assert_eq!(params.len(), 1);
}

#[test]
fn delete_without_condition_is_explicit() {
    let (sql, params) = SQLDelete::new(Dialect::SQLite, "user".to_string()).build().unwrap();
    assert_eq!(sql, "DELETE FROM \"user\";");
    assert!(params.is_empty());
}

#[test]
fn delete_with_limit_is_unsupported_on_postgres() {
    let r = SQLDelete::new(Dialect::Postgres, "user".to_string()).limit(1).build();
    assert!(matches!(r, Err(e) if e.dialect == Dialect::Postgres));
}

#[test]
fn string_values_are_never_inlined() {
    // A hostile-looking value stays a placeholder; the text never holds it.
    let cond = name_ref().equals("'; DROP TABLE user; --").unwrap();
    let (sql, params) = build_select(
        Dialect::SQLite,
        "user",
        &user_columns(),
        &Some(cond),
        &Vec::new(),
        &LimOff::All,
    )
    .unwrap();
    assert!(!sql.contains("DROP"));
    assert_eq!(params.len(), 1);
}

#[test]
fn insert_binds_one_placeholder_per_column() {
    let (sql, params) = rorm::sql::build_insert(
        Dialect::SQLite,
        "user",
        &user_columns(),
        vec![Value::I64(1), Value::String("Bob".to_string())],
    );
    assert_eq!(sql, "INSERT INTO \"user\" (\"id\", \"name\") VALUES (?, ?);");
    assert_eq!(params.len(), 2);
    assert!(matches!(params[0], Value::I64(1)));
    assert!(matches!(&params[1], Value::String(s) if s == "Bob"));
}

#[test]
fn insert_numbers_postgres_placeholders() {
    let (sql, _) = rorm::sql::build_insert(
        Dialect::Postgres,
        "user",
        &user_columns(),
        vec![Value::I64(1), Value::String("Bob".to_string())],
    );
    assert_eq!(sql, "INSERT INTO \"user\" (\"id\", \"name\") VALUES ($1, $2);");
}

#[test]
fn update_binds_assignments_before_condition_values() {
    let cond = id_ref().equals(7i64).unwrap();
    let (sql, params) = rorm::sql::build_update(
        Dialect::Postgres,
        "user",
        &vec!["name".to_string()],
        vec![Value::String("Alice".to_string())],
        &Some(cond),
    );
    assert_eq!(sql, "UPDATE \"user\" SET \"name\" = $1 WHERE \"id\" = $2;");
    assert_eq!(params.len(), 2);
    assert!(matches!(&params[0], Value::String(s) if s == "Alice"));
    assert!(matches!(params[1], Value::I64(7)));
}

#[test]
fn update_without_condition_is_explicit() {
    let (sql, params) = rorm::sql::build_update(
        Dialect::SQLite,
        "user",
        &vec!["name".to_string()],
        vec![Value::String("Alice".to_string())],
        &None,
    );
    assert_eq!(sql, "UPDATE \"user\" SET \"name\" = ?;");
    assert_eq!(params.len(), 1);
}

#[test]
fn aggregations_render_under_their_alias() {
    let agg = id_ref().count();
    assert_eq!(agg.to_select_expr(Dialect::SQLite), "COUNT(\"id\") AS \"count\"");
    let agg = id_ref().sum();
    assert_eq!(agg.to_select_expr(Dialect::SQLite), "SUM(\"id\") AS \"sum\"");
    let agg = id_ref().avg();
    assert_eq!(agg.to_select_expr(Dialect::MySQL), "AVG(`id`) AS `avg`");
    let agg = id_ref().max_value();
    assert_eq!(agg.to_select_expr(Dialect::SQLite), "MAX(\"id\") AS \"max\"");
    let agg = id_ref().min_value();
    assert_eq!(agg.to_select_expr(Dialect::SQLite), "MIN(\"id\") AS \"min\"");
}
