//! Condition building: the comparison families make an ill-typed
//! comparison a definition-time error.

use rorm::condition::{BinaryOp, Condition, FieldRef, Incomparable, IntoCondValue, TernaryOp};
use rorm::value::{DbEnum, DbType, NullType, Value};

fn name_ref() -> FieldRef {
    FieldRef::new("name".to_string(), DbType::VarChar)
}

fn id_ref() -> FieldRef {
    FieldRef::new("id".to_string(), DbType::Int64)
}

fn flag_ref() -> FieldRef {
    FieldRef::new("flag".to_string(), DbType::Boolean)
}

#[test]
fn equals_builds_a_binary_comparison() {
    let c = name_ref().equals("Bob").unwrap();
    match c {
        Condition::Binary(BinaryOp::Equals, lhs, rhs) => {
            assert!(matches!(*lhs, Condition::Value(Value::Ident(ref s)) if s == "name"));
            assert!(matches!(*rhs, Condition::Value(Value::String(ref s)) if s == "Bob"));
        },
        _ => panic!("expected a binary comparison"),
    }
}

#[test]
fn equals_rejects_a_value_of_the_wrong_type() {
    let r = name_ref().equals(42i64);
    assert_eq!(r.unwrap_err(), Incomparable { field_type: DbType::VarChar });
}

#[test]
fn equality_admits_a_matching_typed_null() {
    assert!(name_ref().equals(Value::Null(NullType::String)).is_ok());
    assert!(name_ref().equals(Value::Null(NullType::I64)).is_err());
}

#[test]
fn ordering_is_not_defined_on_booleans() {
    assert!(flag_ref().equals(true).is_ok());
    assert!(flag_ref().less(true).is_err());
}

#[test]
fn pattern_match_is_only_for_strings() {
    assert!(name_ref().like("B%").is_ok());
    assert!(id_ref().like("B%").is_err());
    assert!(name_ref().regexp("^B.*").is_ok());
    assert!(id_ref().not_regexp("^B.*").is_err());
}

#[test]
fn between_requires_an_ordered_type() {
    let c = id_ref().between(1i64, 5i64).unwrap();
    assert!(matches!(c, Condition::Ternary(TernaryOp::Between, _, _, _)));
    assert!(flag_ref().between(true, false).is_err());
    assert!(id_ref().not_between(1i64, 5i64).is_ok());
}

#[test]
fn in_list_checks_every_value() {
    let ok = id_ref().in_list(&vec![1i64, 2i64, 3i64]);
    assert!(matches!(ok, Ok(Condition::Disjunction(cs)) if cs.len() == 3));
    let bad = id_ref().in_list(&vec![Value::I64(1), Value::Bool(true)]);
    assert!(bad.is_err());
}

#[test]
fn not_in_builds_a_conjunction_of_inequalities() {
    let c = id_ref().not_in(&vec![1i64, 2i64]).unwrap();
    match c {
        Condition::Conjunction(cs) => {
            assert_eq!(cs.len(), 2);
            assert!(matches!(cs[0], Condition::Binary(BinaryOp::NotEquals, _, _)));
        },
        _ => panic!("expected a conjunction"),
    }
}

#[test]
fn null_checks_need_no_value() {
    let c = name_ref().is_null();
    assert!(matches!(c, Condition::Unary(rorm::condition::UnaryOp::IsNull, _)));
    let c = name_ref().is_not_null();
    assert!(matches!(c, Condition::Unary(rorm::condition::UnaryOp::IsNotNull, _)));
}

#[test]
fn into_cond_value_covers_the_wire_types() {
    assert!(matches!(true.into_value(), Value::Bool(true)));
    assert!(matches!(7i16.into_value(), Value::I16(7)));
    assert!(matches!(7i32.into_value(), Value::I32(7)));
    assert!(matches!(7i64.into_value(), Value::I64(7)));
    assert!(matches!("x".into_value(), Value::String(s) if s == "x"));
    assert!(matches!("x".to_string().into_value(), Value::String(s) if s == "x"));
    assert!(matches!(vec![1u8, 2u8].into_value(), Value::Binary(b) if b == vec![1, 2]));
}

#[derive(PartialEq, Debug)]
enum Role {
    User,
    Admin,
}

impl rorm::value::DbEnum for Role {
    fn from_tag(tag: &str) -> Option<Role> {
        match tag {
            "user" => Some(Role::User),
            "admin" => Some(Role::Admin),
            _ => None,
        }
    }

    fn to_tag(&self) -> &'static str {
        match self {
            Role::User => "user",
            Role::Admin => "admin",
        }
    }

    fn as_choices() -> Vec<String> {
        vec!["user".to_string(), "admin".to_string()]
    }
}

#[test]
fn db_enum_round_trips_through_its_tags() {
    assert_eq!(Role::from_tag(Role::Admin.to_tag()), Some(Role::Admin));
    assert_eq!(Role::from_tag(Role::User.to_tag()), Some(Role::User));
    assert_eq!(Role::from_tag("root"), None);
    assert_eq!(Role::as_choices(), vec!["user".to_string(), "admin".to_string()]);
}
